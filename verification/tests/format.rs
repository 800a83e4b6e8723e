use macos_errno::format::tagged;
use macos_errno::table::{EAGAIN, ENOENT};
use macos_errno::Error;

#[test]
fn named_error_is_written_as_its_name_alone() {
    assert_eq!(ENOENT().to_debug_string(), "ENOENT");
    assert_eq!(Error::new(35).unwrap().to_debug_string(), "EAGAIN");
}

#[test]
fn unnamed_error_is_written_in_tagged_form() {
    let text = Error::new(9999).unwrap().to_debug_string();
    assert_eq!(text, "Error(9999)");
    assert!(text.contains("Error"));
    assert!(text.contains("9999"));
    assert_eq!(Error::new(12345).unwrap().to_debug_string(), "Error(12345)");
    assert_eq!(Error::new(107).unwrap().to_debug_string(), "Error(107)");
}

#[test]
fn negative_error_is_written_with_its_sign() {
    assert_eq!(Error::new(-5).unwrap().to_debug_string(), "Error(-5)");
    assert_eq!(Error::new(i32::MIN).unwrap().to_debug_string(), "Error(-2147483648)");
}

#[test]
fn tagged_wraps_the_number() {
    assert_eq!(tagged("7"), "Error(7)");
    assert_eq!(tagged(""), "Error()");
    assert_eq!(tagged("-12"), "Error(-12)");
}

#[test]
fn binary_is_that_of_the_number() {
    assert_eq!(Error::new(5).unwrap().to_binary_string(), "101");
    assert_eq!(EAGAIN().to_binary_string(), "100011");
    assert_eq!(EAGAIN().to_binary_string(), format!("{:b}", 35));
    assert_eq!(Error::new(-1).unwrap().to_binary_string(), "1".repeat(32));
}

#[test]
fn lower_hex_is_that_of_the_number() {
    assert_eq!(Error::new(255).unwrap().to_lower_hex_string(), "ff");
    assert_eq!(EAGAIN().to_lower_hex_string(), "23");
    assert_eq!(Error::new(-1).unwrap().to_lower_hex_string(), "ffffffff");
    assert_eq!(Error::new(0x1abc).unwrap().to_lower_hex_string(), "1abc");
}

#[test]
fn upper_hex_is_that_of_the_number() {
    assert_eq!(Error::new(255).unwrap().to_upper_hex_string(), "FF");
    assert_eq!(EAGAIN().to_upper_hex_string(), "23");
    assert_eq!(Error::new(-1).unwrap().to_upper_hex_string(), "FFFFFFFF");
    assert_eq!(Error::new(0x1abc).unwrap().to_upper_hex_string(), "1ABC");
}
