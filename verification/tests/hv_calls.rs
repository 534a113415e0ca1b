use minihype::hv::{
    exception_class, hv_check, hv_status, is_hvc_exit, HVError, HvStatus, EC_HVC64, HV_BAD_ARGUMENT,
    HV_BUSY, HV_ERROR, HV_NO_DEVICE, HV_NO_RESOURCES, HV_SUCCESS, HV_UNSUPPORTED,
};

#[test]
fn from_error_keeps_the_code() {
    assert_eq!(HVError::from_error(-85377023).code(), -85377023);
    assert_eq!(HVError::from_error(7), HVError::from_error(7));
    assert_ne!(HVError::from_error(7), HVError::from_error(8));
}

#[test]
fn error_displays_its_code_in_decimal() {
    assert_eq!(HVError::from_error(0).to_string(), "0");
    assert_eq!(HVError::from_error(7).to_string(), "7");
    assert_eq!(HVError::from_error(1234567890).to_string(), "1234567890");
    assert_eq!(HVError::from_error(-85377023).to_string(), "-85377023");
    assert_eq!(HVError::from_error(i32::MIN).to_string(), "-2147483648");
    assert_eq!(HVError::from_error(i32::MAX).to_string(), "2147483647");
}

#[test]
fn return_codes_match_the_framework() {
    assert_eq!(HV_SUCCESS, 0);
    assert_eq!(HV_ERROR as u32, 0xfae94001);
    assert_eq!(HV_BUSY as u32, 0xfae94002);
    assert_eq!(HV_BAD_ARGUMENT as u32, 0xfae94003);
    assert_eq!(HV_NO_RESOURCES as u32, 0xfae94005);
    assert_eq!(HV_NO_DEVICE as u32, 0xfae94006);
    assert_eq!(HV_UNSUPPORTED as u32, 0xfae9400f);
}

#[test]
fn each_code_is_read() {
    assert_eq!(hv_status(HV_SUCCESS), HvStatus::Success);
    assert_eq!(hv_status(HV_ERROR), HvStatus::Error);
    assert_eq!(hv_status(HV_BUSY), HvStatus::Busy);
    assert_eq!(hv_status(HV_BAD_ARGUMENT), HvStatus::BadArgument);
    assert_eq!(hv_status(HV_NO_RESOURCES), HvStatus::NoResources);
    assert_eq!(hv_status(HV_NO_DEVICE), HvStatus::NoDevice);
    assert_eq!(hv_status(HV_UNSUPPORTED), HvStatus::Unsupported);
    assert_eq!(hv_status(42), HvStatus::Unknown(42));
    assert!(hv_status(HV_SUCCESS).is_success());
    assert!(!hv_status(HV_ERROR).is_success());
    assert!(!hv_status(42).is_success());
}

#[test]
fn each_outcome_has_its_line() {
    assert_eq!(hv_status(HV_SUCCESS).message(), "HV_SUCCESS: The operation completed successfully.");
    assert_eq!(hv_status(HV_ERROR).message(), "HV_ERROR: The operation was unsuccessful.");
    assert_eq!(
        hv_status(HV_BUSY).message(),
        "HV_BUSY: The operation was unsuccessful because the owning resource was busy."
    );
    assert_eq!(
        hv_status(HV_BAD_ARGUMENT).message(),
        "HV_BAD_ARGUMENT: The operation was unsuccessful because the function call had an invalid argument."
    );
    assert_eq!(
        hv_status(HV_NO_RESOURCES).message(),
        "HV_NO_RESOURCES: The operation was unsuccessful because the host had no resources available to complete the request."
    );
    assert_eq!(
        hv_status(HV_NO_DEVICE).message(),
        "HV_NO_DEVICE: The operation was unsuccessful because no VM or vCPU was available."
    );
    assert_eq!(
        hv_status(HV_UNSUPPORTED).message(),
        "HV_UNSUPPORTED: The operation requested isn’t supported by the hypervisor."
    );
    assert_eq!(hv_status(-3).message(), "unknown -3");
    assert_eq!(hv_status(12).message(), "unknown 12");
}

#[test]
fn only_success_is_ok() {
    assert_eq!(hv_check(HV_SUCCESS), Ok(0));
    assert_eq!(hv_check(HV_BUSY), Err(HVError::from_error(HV_BUSY)));
    assert_eq!(hv_check(1), Err(HVError::from_error(1)));
}

#[test]
fn exception_class_is_bits_31_to_26() {
    assert_eq!(exception_class(0x5a00_0000), 0x16);
    assert_eq!(exception_class(0x5a00_0000 | 0x03ff_ffff | (0xffff_ffff << 32)), 0x16);
    assert_eq!(exception_class(0x9200_0046), 0x24);
    assert_eq!(exception_class(0), 0);
    assert_eq!(exception_class(u64::MAX), 0x3f);
}

#[test]
fn hvc_exit_is_recognised() {
    assert_eq!(EC_HVC64, 0x16);
    assert!(is_hvc_exit(0x5a00_0000));
    assert!(!is_hvc_exit(0x9200_0046));
    assert!(!is_hvc_exit(0x16));
}
