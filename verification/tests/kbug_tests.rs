use hidapi::kbug::{KernelBug, KernelVersion};

#[test]
fn test_parse() {
    assert_eq!(
        "5.5.3-arch1-1".parse::<KernelVersion>().unwrap(),
        KernelVersion::new(5, 5, 3)
    );
}

#[test]
fn test_version_cmp() {
    assert!(KernelVersion::new(5, 5, 3) > KernelVersion::new(2, 6, 0));
}

#[test]
fn test_linux_kernel_version() {
    println!("{:?}", KernelVersion::detect().unwrap());
}

#[test]
fn parse_takes_leading_digits_per_component() {
    assert_eq!(
        "4.19rc2.7x".parse::<KernelVersion>().unwrap(),
        KernelVersion::new(4, 19, 7)
    );
}

#[test]
fn parse_missing_components_are_zero() {
    assert_eq!("5".parse::<KernelVersion>().unwrap(), KernelVersion::new(5, 0, 0));
    assert_eq!("5.4".parse::<KernelVersion>().unwrap(), KernelVersion::new(5, 4, 0));
}

#[test]
fn parse_rejects_empty_and_nondigit_components() {
    assert!("".parse::<KernelVersion>().is_err());
    assert!("x.2.3".parse::<KernelVersion>().is_err());
    assert!("5..3".parse::<KernelVersion>().is_err());
    assert!("5.4.arch".parse::<KernelVersion>().is_err());
}

#[test]
fn parse_rejects_oversized_components() {
    assert!("256.0.0".parse::<KernelVersion>().is_err());
    assert_eq!("255.0.1".parse::<KernelVersion>().unwrap(), KernelVersion::new(255, 0, 1));
}

#[test]
fn parse_failure_is_invalid_input() {
    assert_eq!("nonsense".parse::<KernelVersion>(), Err(hidapi::HidError::InvalidInput));
}

#[test]
fn version_order_is_major_minor_release() {
    assert!(KernelVersion::new(2, 6, 33) < KernelVersion::new(2, 6, 34));
    assert!(KernelVersion::new(2, 7, 0) > KernelVersion::new(2, 6, 34));
    assert!(KernelVersion::new(3, 0, 0) > KernelVersion::new(2, 255, 255));
    assert!(KernelVersion::new(1, 2, 3) == KernelVersion::new(1, 2, 3));
}

#[test]
fn extra_byte_bug_is_before_2_6_34() {
    let bug = KernelBug::NumberedReportExtrabyte;
    assert!(bug.check(&KernelVersion::new(2, 6, 33)));
    assert!(!bug.check(&KernelVersion::new(2, 6, 34)));
    assert!(!bug.check(&KernelVersion::new(5, 5, 3)));
}
