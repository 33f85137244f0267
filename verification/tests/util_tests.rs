use udev_rs::util::{
    c_to_str, check_errno, classify_sysattr_write, clear_nonblock, handle_error, parse_decimal,
    str_eq, str_is, CallStatus, ReturnClass, WriteStatus, EINVAL, ENOMEM, O_NONBLOCK,
};

#[test]
fn check_errno_found_ignores_code() {
    assert!(matches!(check_errno(Some(7u32), 99), CallStatus::Found(7)));
    assert!(matches!(check_errno(Some(1u8), 0), CallStatus::Found(1)));
}

#[test]
fn check_errno_null_splits_three_ways() {
    assert!(matches!(check_errno::<u32>(None, ENOMEM), CallStatus::OutOfMemory));
    assert!(matches!(check_errno::<u32>(None, 0), CallStatus::Absent));
    assert!(matches!(check_errno::<u32>(None, 5), CallStatus::Error(5)));
    assert!(matches!(check_errno::<u32>(None, EINVAL), CallStatus::Error(EINVAL)));
}

#[test]
fn handle_error_classification() {
    assert!(matches!(handle_error(0), ReturnClass::Success));
    assert!(matches!(handle_error(-ENOMEM), ReturnClass::OutOfMemory));
    assert!(matches!(handle_error(-EINVAL), ReturnClass::Bug));
    assert!(matches!(handle_error(3), ReturnClass::Bug));
}

#[test]
fn sysattr_write_classification() {
    assert!(matches!(classify_sysattr_write(0), WriteStatus::Written));
    assert!(matches!(classify_sysattr_write(-5), WriteStatus::Failed(5)));
    assert!(matches!(classify_sysattr_write(-ENOMEM), WriteStatus::Failed(ENOMEM)));
    assert!(matches!(classify_sysattr_write(1), WriteStatus::Bug));
}

#[test]
fn clear_nonblock_clears_only_that_flag() {
    assert_eq!(clear_nonblock(O_NONBLOCK | 1), 1);
    assert_eq!(clear_nonblock(O_NONBLOCK), 0);
    assert_eq!(clear_nonblock(3), 3);
}

#[test]
fn c_to_str_reads_until_nul() {
    let buf: Vec<u8> = b"tty\0rest\0".to_vec();
    let r = c_to_str(Some(&buf)).unwrap();
    assert_eq!(r, b"tty".to_vec());
}

#[test]
fn c_to_str_null_pointer_is_none() {
    assert!(c_to_str(None).is_none());
}

#[test]
fn c_to_str_empty_string() {
    let buf: Vec<u8> = vec![0u8];
    let r = c_to_str(Some(&buf)).unwrap();
    assert!(r.is_empty());
}

#[test]
fn parse_decimal_values() {
    assert_eq!(parse_decimal("0"), Some(0));
    assert_eq!(parse_decimal("5"), Some(5));
    assert_eq!(parse_decimal("123"), Some(123));
    assert_eq!(parse_decimal("18446744073709551615"), Some(u64::MAX));
}

#[test]
fn parse_decimal_rejects() {
    assert_eq!(parse_decimal(""), None);
    assert_eq!(parse_decimal("12a"), None);
    assert_eq!(parse_decimal("-3"), None);
    assert_eq!(parse_decimal(" 7"), None);
    assert_eq!(parse_decimal("18446744073709551616"), None);
}

#[test]
fn string_comparisons() {
    assert!(str_eq("tty", &String::from("tty")));
    assert!(!str_eq("tty", &String::from("tty0")));
    assert!(str_is("add", "add"));
    assert!(!str_is("add", "remove"));
}
