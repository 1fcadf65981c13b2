use lime_suite::error::Error;
use lime_suite::text::{
    c_str_to_bytes, c_str_to_string, c_string_bytes, decimal_string, lms_name_bytes,
    str_contains, str_equals, string_from_slice,
};

#[test]
fn decimal_rendering() {
    assert_eq!(decimal_string(0), "0");
    assert_eq!(decimal_string(7), "7");
    assert_eq!(decimal_string(1234567), "1234567");
    assert_eq!(decimal_string(-10), "-10");
    assert_eq!(decimal_string(i32::MAX), "2147483647");
    assert_eq!(decimal_string(i32::MIN), "-2147483648");
}

#[test]
fn substring_search() {
    assert!(str_contains("LimeSDR-USB, media=USB 3.0, serial=0009", "serial="));
    assert!(!str_contains("LimeSDR-USB, media=USB 3.0", "serial="));
    assert!(str_contains("serial=", "serial="));
    assert!(!str_contains("seria", "serial="));
    assert!(str_contains("abc", ""));
    assert!(str_contains("äöü serial=1", "serial="));
}

#[test]
fn string_equality() {
    assert!(str_equals("FX3 RAM", "FX3 RAM"));
    assert!(!str_equals("FX3 RAM", "FX3 RAN"));
    assert!(!str_equals("FX3", "FX3 RAM"));
    assert!(str_equals("", ""));
}

#[test]
fn c_strings_stop_at_nul() {
    let raw: [i8; 6] = [b'a' as i8, b'b' as i8, 0, b'c' as i8, 0, 0];
    assert_eq!(c_str_to_bytes(&raw), vec![b'a', b'b']);
    let full: [i8; 3] = [b'x' as i8, b'y' as i8, b'z' as i8];
    assert_eq!(c_str_to_bytes(&full), vec![b'x', b'y', b'z']);
    let empty: [i8; 4] = [0; 4];
    assert_eq!(c_str_to_bytes(&empty), Vec::<u8>::new());
}

#[test]
fn lossy_decoding_replaces_invalid_bytes() {
    let raw: [i8; 4] = [b'o' as i8, b'k' as i8, 0, 0];
    assert_eq!(string_from_slice(&raw), "ok");
    let bad: [i8; 3] = [b'a' as i8, 0xff_u8 as i8, 0];
    assert_eq!(string_from_slice(&bad), "a\u{FFFD}");
}

#[test]
fn strict_decoding_refuses_invalid_bytes() {
    let raw: [i8; 5] = [b'L' as i8, b'N' as i8, b'A' as i8, 0, 0];
    assert_eq!(c_str_to_string(&raw), Some(String::from("LNA")));
    let bad: [i8; 3] = [0xc3_u8 as i8, 0, 0];
    assert_eq!(c_str_to_string(&bad), None);
}

#[test]
fn c_string_check() {
    assert_eq!(c_string_bytes("config.ini").unwrap(), b"config.ini".to_vec());
    assert!(matches!(c_string_bytes("bad\0name"), Err(Error::InvalidValue)));
    assert_eq!(c_string_bytes("").unwrap(), Vec::<u8>::new());
}

#[test]
fn lms_name_check() {
    assert_eq!(lms_name_bytes("FPGA FLASH").unwrap(), b"FPGA FLASH".to_vec());
    // 15 bytes fit, 16 do not (the buffer keeps room for the NUL).
    assert!(lms_name_bytes("123456789012345").is_ok());
    assert!(matches!(lms_name_bytes("1234567890123456"), Err(Error::InvalidValue)));
    assert!(matches!(lms_name_bytes("a\0b"), Err(Error::InvalidValue)));
    // The limit counts bytes, not characters.
    assert!(matches!(lms_name_bytes("ääääääää"), Err(Error::InvalidValue)));
}
