//! The GPU telemetry source: the calls into NVML that the library makes
use nvml_wrapper::error::NvmlError;
use nvml_wrapper::{Device, Nvml};

use vstd::prelude::*;

use crate::util::DeviceRetrievalError;

verus! {

#[verifier::external_type_specification]
#[verifier::external_body]
pub struct ExNvml(Nvml);

#[verifier::external_type_specification]
#[verifier::external_body]
pub struct ExDevice<'nvml>(Device<'nvml>);

#[verifier::external_type_specification]
#[verifier::external_body]
pub struct ExNvmlError(NvmlError);

/// The classes of NVML errors that the library tells apart
#[derive(Clone, Copy, Debug, PartialEq, Eq, Structural)]
pub enum NvmlErrorKind {
    /// `NvmlError::InvalidArg`: an index or a handle that is not valid
    InvalidArg,
    /// `NvmlError::NotSupported`: the device does not offer the query
    NotSupported,
    /// Any other error
    Other,
}

/// Relies on `Nvml::device_count`: the number of devices, or the error of
/// the driver.
#[verifier::external_body]
pub(crate) fn device_count(nvml: &Nvml) -> Result<u32, NvmlError> {
    nvml.device_count()
}

/// Relies on `Nvml::device_by_index`: a handle to the device with the
/// given index, or the error of the driver.
#[verifier::external_body]
pub(crate) fn device_by_index<'nvml>(nvml: &'nvml Nvml, index: u32) -> Result<
    Device<'nvml>,
    NvmlError,
> {
    nvml.device_by_index(index)
}

/// Relies on `Device::index`: the index of the device, or the error of the
/// driver.
#[verifier::external_body]
pub(crate) fn device_index(device: &Device) -> Result<u32, NvmlError> {
    device.index()
}

/// Relies on `Device::total_energy_consumption`: the energy that the device
/// has consumed since the driver was loaded, in `mJ`, or the error of the
/// driver.
#[verifier::external_body]
pub(crate) fn total_energy_consumption(device: &Device) -> Result<u64, NvmlError> {
    device.total_energy_consumption()
}

/// Relies on `Device::name`: the product name of the device, or the error
/// of the driver.
#[verifier::external_body]
pub(crate) fn device_name(device: &Device) -> Result<String, NvmlError> {
    device.name()
}

/// Relies on `Nvml::sys_driver_version`: the version of the graphics
/// driver, or the error of the driver.
#[verifier::external_body]
pub(crate) fn sys_driver_version(nvml: &Nvml) -> Result<String, NvmlError> {
    nvml.sys_driver_version()
}

/// Relies on `Nvml::sys_nvml_version`: the version of the NVML library, or
/// its error.
#[verifier::external_body]
pub(crate) fn sys_nvml_version(nvml: &Nvml) -> Result<String, NvmlError> {
    nvml.sys_nvml_version()
}

/// The class of an NVML error, which its variant decides
pub uninterp spec fn kind_of(error: NvmlError) -> NvmlErrorKind;

/// Relies on the variants of `NvmlError`: tells `InvalidArg` and
/// `NotSupported` apart from the others.
#[verifier::external_body]
pub(crate) fn error_kind(error: &NvmlError) -> (r: NvmlErrorKind)
    ensures
        r == kind_of(*error),
{
    match error {
        NvmlError::InvalidArg => NvmlErrorKind::InvalidArg,
        NvmlError::NotSupported => NvmlErrorKind::NotSupported,
        _ => NvmlErrorKind::Other,
    }
}

} // verus!

verus! {

/// How a failed telemetry query is reported to a client
#[derive(Clone, Copy, Debug, PartialEq, Eq, Structural)]
pub enum Failure {
    /// The device or the property does not exist (HTTP 404)
    NotFound,
    /// The query failed for another reason (HTTP 500)
    Internal,
}

impl Failure {
    /// How an NVML error of the given class is reported
    pub fn of_kind(kind: NvmlErrorKind) -> (r: Failure)
        ensures
            r == Failure::of_kind_spec(kind),
    {
        match kind {
            NvmlErrorKind::InvalidArg => Failure::NotFound,
            NvmlErrorKind::NotSupported => Failure::NotFound,
            NvmlErrorKind::Other => Failure::Internal,
        }
    }

    /// How the given NVML error is reported
    pub fn of_error(error: &NvmlError) -> (r: Failure)
        ensures
            r == Failure::of_kind_spec(kind_of(*error)),
    {
        Failure::of_kind(error_kind(error))
    }

    /// How an NVML error of the given class is reported
    pub open spec fn of_kind_spec(kind: NvmlErrorKind) -> Failure {
        if kind == NvmlErrorKind::Other {
            Failure::Internal
        } else {
            Failure::NotFound
        }
    }
}

/// Why the device with a requested index could not be retrieved
#[derive(Clone, Copy, Debug, PartialEq, Eq, Structural)]
pub enum DeviceLookupError {
    /// There is no device with that index
    NotFound,
    /// The device could not be retrieved for another reason
    Retrieval(DeviceRetrievalError),
}

impl DeviceLookupError {
    /// The lookup error for the device with the given index, whose
    /// retrieval failed with an error of the given class
    pub open spec fn of_kind_spec(kind: NvmlErrorKind, index: u32) -> DeviceLookupError {
        if kind == NvmlErrorKind::InvalidArg {
            DeviceLookupError::NotFound
        } else {
            DeviceLookupError::Retrieval(DeviceRetrievalError(index))
        }
    }

    /// The lookup error for the device with the given index, whose
    /// retrieval failed with an error of the given class
    pub fn of_kind(kind: NvmlErrorKind, index: u32) -> (r: DeviceLookupError)
        ensures
            r == DeviceLookupError::of_kind_spec(kind, index),
    {
        match kind {
            NvmlErrorKind::InvalidArg => DeviceLookupError::NotFound,
            _ => DeviceLookupError::Retrieval(DeviceRetrievalError(index)),
        }
    }
}

/// Retrieve the device with the given index
pub fn lookup_device<'nvml>(nvml: &'nvml Nvml, index: u32) -> (r: Result<
    Device<'nvml>,
    DeviceLookupError,
>)
    ensures
        r is Err ==> exists|error: NvmlError|
            r->Err_0 == DeviceLookupError::of_kind_spec(#[trigger] kind_of(error), index),
{
    match device_by_index(nvml, index) {
        Ok(device) => Ok(device),
        Err(e) => Err(DeviceLookupError::of_kind(error_kind(&e), index)),
    }
}

} // verus!
