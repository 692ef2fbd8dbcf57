use devcgroup::rule::{format_line, u64_to_string, DeviceKind, DeviceRule};

fn rule(
    allow: bool,
    kind: DeviceKind,
    major: Option<u32>,
    minor: Option<u32>,
    access: &str,
) -> DeviceRule {
    DeviceRule { allow, kind, major, minor, access: access.to_string() }
}

#[test]
fn decimal_zero() {
    assert_eq!(u64_to_string(0), "0");
}

#[test]
fn decimal_single_digit() {
    assert_eq!(u64_to_string(7), "7");
}

#[test]
fn decimal_multi_digit() {
    assert_eq!(u64_to_string(1234), "1234");
}

#[test]
fn decimal_largest_device_number() {
    assert_eq!(u64_to_string(4294967295), "4294967295");
}

#[test]
fn kind_spellings() {
    assert_eq!(DeviceKind::CharDevice.as_str(), "c");
    assert_eq!(DeviceKind::BlockDevice.as_str(), "b");
    assert_eq!(DeviceKind::AnyDevice.as_str(), "a");
}

#[test]
fn exact_line_char_42_0_rw() {
    let r = rule(true, DeviceKind::CharDevice, Some(42), Some(0), "rw");
    assert_eq!(format_line(&r), "c 42:0 rw");
}

#[test]
fn wildcard_major_and_minor_format_as_star_colon_star() {
    let r = rule(false, DeviceKind::AnyDevice, None, None, "rwm");
    let line = format_line(&r);
    assert_eq!(line, "a *:* rwm");
    assert!(line.contains("*:*"));
}

#[test]
fn wildcard_minor_only() {
    let r = rule(true, DeviceKind::CharDevice, Some(136), None, "rwm");
    assert_eq!(format_line(&r), "c 136:* rwm");
}

#[test]
fn block_device_line() {
    let r = rule(true, DeviceKind::BlockDevice, Some(8), Some(16), "r");
    assert_eq!(format_line(&r), "b 8:16 r");
}
