//! Health-check utilities
use nvml_wrapper::Nvml;

use vstd::prelude::*;

use crate::energy::{BaseMeasurements, Error, Operation};
use crate::telemetry;

verus! {

/// Version of this library, reported by health checks
pub const VERSION: &'static str = "0.1.0";

/// Health check data
#[derive(Debug)]
pub struct Health {
    /// Number of devices
    pub device_count: u32,
    /// Name of each device, by index
    pub device_names: Vec<String>,
    /// Version of this library
    pub version: &'static str,
    /// Version of the graphics driver
    pub driver_version: String,
    /// Version of the NVML library
    pub nvml_version: String,
    /// Number of live measurement campaigns
    pub campaigns: usize,
    /// Whether oneshot measurements are enabled
    pub oneshot_enabled: bool,
}

/// A health checker
#[derive(Clone, Debug)]
pub struct Checker<'a> {
    nvml: &'a Nvml,
    oneshot_enabled: bool,
}

impl<'a> Checker<'a> {
    /// Whether the checker reports oneshot measurements as enabled
    pub closed spec fn reports_oneshot(&self) -> bool {
        self.oneshot_enabled
    }

    /// Create a new health checker
    pub fn new(nvml: &'a Nvml, oneshot_enabled: bool) -> (r: Result<Self, Error>)
        ensures
            r is Ok,
            r is Ok ==> r->Ok_0.reports_oneshot() == oneshot_enabled,
    {
        Ok(Checker { nvml, oneshot_enabled })
    }

    /// Perform a health check, producing a [Health] info if healthy
    pub fn check(&self, campaigns: &BaseMeasurements) -> (r: Result<Health, Error>)
        ensures
            r is Ok ==> {
                let h = r->Ok_0;
                &&& h.device_names.len() == h.device_count
                &&& h.version@ == VERSION@
                &&& h.campaigns == campaigns@.campaigns.len()
                &&& h.oneshot_enabled == self.reports_oneshot()
            },
            r is Err ==> (r->Err_0 matches Error::Telemetry { operation, .. } && (operation
                == Operation::DeviceCount || operation is Device || operation is DeviceName
                || operation == Operation::DriverVersion || operation == Operation::NvmlVersion)),
    {
        let device_count = match telemetry::device_count(self.nvml) {
            Ok(n) => n,
            Err(source) => {
                return Err(Error::Telemetry { operation: Operation::DeviceCount, source });
            },
        };
        let mut device_names: Vec<String> = Vec::new();
        for i in 0..device_count
            invariant
                device_names.len() == i,
        {
            let device = match telemetry::device_by_index(self.nvml, i) {
                Ok(device) => device,
                Err(source) => {
                    return Err(Error::Telemetry { operation: Operation::Device(i), source });
                },
            };
            match telemetry::device_name(&device) {
                Ok(name) => device_names.push(name),
                Err(source) => {
                    return Err(Error::Telemetry { operation: Operation::DeviceName(i), source });
                },
            }
        }
        let driver_version = match telemetry::sys_driver_version(self.nvml) {
            Ok(v) => v,
            Err(source) => {
                return Err(Error::Telemetry { operation: Operation::DriverVersion, source });
            },
        };
        let nvml_version = match telemetry::sys_nvml_version(self.nvml) {
            Ok(v) => v,
            Err(source) => {
                return Err(Error::Telemetry { operation: Operation::NvmlVersion, source });
            },
        };
        Ok(Health {
            device_count,
            device_names,
            version: VERSION,
            driver_version,
            nvml_version,
            campaigns: campaigns.len(),
            oneshot_enabled: self.oneshot_enabled,
        })
    }
}

} // verus!
