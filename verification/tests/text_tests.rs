use geoip::maybe_string;
use geoip::text::{format_usize, parse_u32_digits, to_c_bytes};

#[test]
fn maybe_string_null_is_absent() {
    assert_eq!(maybe_string(None), None);
}

#[test]
fn maybe_string_valid_utf8_decodes() {
    let bytes = "Mountain View".as_bytes().to_vec();
    assert_eq!(maybe_string(Some(bytes)), Some("Mountain View".to_string()));
}

#[test]
fn maybe_string_invalid_utf8_degrades_to_absent() {
    let bytes = vec![0x4d, 0xff, 0xfe, 0x56];
    assert_eq!(maybe_string(Some(bytes)), None);
}

#[test]
fn parse_digits_basic() {
    assert_eq!(parse_u32_digits("15169"), Some(15169));
    assert_eq!(parse_u32_digits("0"), Some(0));
    assert_eq!(parse_u32_digits("007"), Some(7));
}

#[test]
fn parse_digits_rejects_empty_and_non_digits() {
    assert_eq!(parse_u32_digits(""), None);
    assert_eq!(parse_u32_digits("12a"), None);
    assert_eq!(parse_u32_digits("-5"), None);
    assert_eq!(parse_u32_digits(" 12"), None);
}

#[test]
fn parse_digits_bounds() {
    assert_eq!(parse_u32_digits("4294967295"), Some(u32::MAX));
    assert_eq!(parse_u32_digits("4294967296"), None);
    assert_eq!(parse_u32_digits("99999999999999999999"), None);
}

#[test]
fn decimal_write_read_round_trip() {
    for n in [0usize, 7, 10, 123, 65535, 4294967295] {
        let written = format_usize(n);
        assert_eq!(parse_u32_digits(&written), Some(n as u32));
    }
    assert_eq!(format_usize(0), "0");
    assert_eq!(format_usize(40), "40");
}

#[test]
fn c_bytes_appends_terminator() {
    assert_eq!(to_c_bytes(b"GeoIP.dat"), Ok(b"GeoIP.dat\0".to_vec()));
    assert_eq!(to_c_bytes(b""), Ok(vec![0]));
}

#[test]
fn c_bytes_rejects_embedded_nul() {
    assert_eq!(to_c_bytes(b"a\0b"), Err(1));
    assert_eq!(to_c_bytes(b"\0"), Err(0));
    assert_eq!(to_c_bytes(b"ab\0\0"), Err(2));
}
