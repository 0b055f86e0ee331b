use std::str::FromStr;

use gpu_energy::config::{
    Oneshot, DEFAULT_GC_MIN_AGE, DEFAULT_GC_MIN_CAMPAIGNS, DEFAULT_ONESHOT_DURATION, GC,
};
use gpu_energy::param::DeviceProperty;
use gpu_energy::telemetry::{DeviceLookupError, Failure, NvmlErrorKind};
use gpu_energy::util::{
    as_millis, as_secs, base_uri_needs_slash, from_millis, from_secs, BaseUriError, parse_millis, parse_secs, DeviceRetrievalError,
    NANOS_PER_SEC,
};

#[test]
fn millis_are_parsed() {
    assert_eq!(parse_millis("1500").unwrap(), 1_500_000_000);
    assert_eq!(parse_millis("+20").unwrap(), 20_000_000);
    assert_eq!(parse_millis("007").unwrap(), 7_000_000);
    assert_eq!(
        parse_millis("18446744073709551615").unwrap(),
        18446744073709551615u128 * 1_000_000
    );
}

#[test]
fn bad_millis_are_rejected() {
    for s in ["0", "", "+", "-1", "abc", " 5", "5 ", "1.5", "18446744073709551616"] {
        assert!(parse_millis(s).is_err(), "{s:?} was accepted");
    }
}

#[test]
fn secs_are_parsed() {
    assert_eq!(parse_secs("60").unwrap(), 60 * NANOS_PER_SEC);
    assert_eq!(parse_secs("1").unwrap(), NANOS_PER_SEC);
    assert!(parse_secs("0").is_err());
    assert!(parse_secs("ten").is_err());
}

#[test]
fn device_properties_are_parsed() {
    assert_eq!(DeviceProperty::parse("name").unwrap(), DeviceProperty::Name);
    assert_eq!(DeviceProperty::parse("uuid").unwrap(), DeviceProperty::Uuid);
    assert_eq!(DeviceProperty::parse("serial").unwrap(), DeviceProperty::Serial);
    assert_eq!(
        DeviceProperty::from_str("power_usage").unwrap(),
        DeviceProperty::PowerUsage
    );
    assert_eq!(DeviceProperty::parse("power").unwrap_err(), "power");
    assert_eq!(DeviceProperty::parse("Name").unwrap_err(), "Name");
    assert_eq!(DeviceProperty::from_str("").unwrap_err(), "");
}

#[test]
fn configuration_defaults() {
    let oneshot = Oneshot::default();
    assert!(!oneshot.enable);
    assert_eq!(oneshot.duration, 500_000_000);
    assert_eq!(DEFAULT_ONESHOT_DURATION, 500_000_000);
    let gc = GC::default();
    assert_eq!(gc.min_age, 24 * 60 * 60 * NANOS_PER_SEC);
    assert_eq!(gc.min_age, DEFAULT_GC_MIN_AGE);
    assert_eq!(gc.min_campaigns, 1 << 16);
    assert_eq!(DEFAULT_GC_MIN_CAMPAIGNS, 65536);
}

#[test]
fn oneshot_duration_defaults() {
    let oneshot = Oneshot { enable: true, duration: 200 };
    assert_eq!(oneshot.duration_for(None), 200);
    assert_eq!(oneshot.duration_for(Some(50)), 50);
}

#[test]
fn failures_are_classified() {
    assert_eq!(Failure::of_kind(NvmlErrorKind::InvalidArg), Failure::NotFound);
    assert_eq!(Failure::of_kind(NvmlErrorKind::NotSupported), Failure::NotFound);
    assert_eq!(Failure::of_kind(NvmlErrorKind::Other), Failure::Internal);
    assert_eq!(
        Failure::of_error(&nvml_wrapper::error::NvmlError::InvalidArg),
        Failure::NotFound
    );
    assert_eq!(
        Failure::of_error(&nvml_wrapper::error::NvmlError::NotSupported),
        Failure::NotFound
    );
    assert_eq!(
        Failure::of_error(&nvml_wrapper::error::NvmlError::GpuLost),
        Failure::Internal
    );
}

#[test]
fn device_lookup_errors() {
    assert_eq!(
        DeviceLookupError::of_kind(NvmlErrorKind::InvalidArg, 4),
        DeviceLookupError::NotFound
    );
    assert_eq!(
        DeviceLookupError::of_kind(NvmlErrorKind::NotSupported, 4),
        DeviceLookupError::Retrieval(DeviceRetrievalError(4))
    );
    assert_eq!(
        DeviceLookupError::of_kind(NvmlErrorKind::Other, 9),
        DeviceLookupError::Retrieval(DeviceRetrievalError(9))
    );
}

#[test]
fn span_conversions() {
    assert_eq!(from_millis(3), 3_000_000);
    assert_eq!(from_secs(2), 2_000_000_000);
    assert_eq!(from_secs(u64::MAX), u64::MAX as u128 * 1_000_000_000);
    assert_eq!(as_millis(1_999_999), 1);
    assert_eq!(as_secs(2_500_000_000), 2);
    assert_eq!(as_secs(999_999_999), 0);
}

#[test]
fn base_uri_decisions() {
    assert_eq!(base_uri_needs_slash(true, "/gms/"), Err(BaseUriError::HasQuery));
    assert_eq!(base_uri_needs_slash(true, "/gms"), Err(BaseUriError::HasQuery));
    assert_eq!(base_uri_needs_slash(false, "/gms/"), Ok(false));
    assert_eq!(base_uri_needs_slash(false, "/"), Ok(false));
    assert_eq!(base_uri_needs_slash(false, "/gms"), Ok(true));
    assert_eq!(base_uri_needs_slash(false, ""), Ok(true));
}
