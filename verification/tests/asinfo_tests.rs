use geoip::asinfo::{network_info_outcome, parse_as_description};

#[test]
fn parse_description_with_name() {
    let info = parse_as_description("AS15169 Google Inc.", 24).unwrap();
    assert_eq!(info.asn, 15169);
    assert_eq!(info.name, "Google Inc.".to_string());
    assert_eq!(info.netmask, 24);
}

#[test]
fn parse_description_name_keeps_later_spaces() {
    let info = parse_as_description("AS3356 Level 3 Communications", 16).unwrap();
    assert_eq!(info.asn, 3356);
    assert_eq!(info.name, "Level 3 Communications".to_string());
}

#[test]
fn parse_description_without_name_uses_placeholder() {
    let info = parse_as_description("AS15169", 24).unwrap();
    assert_eq!(info.asn, 15169);
    assert_eq!(info.name, "(none)".to_string());
}

#[test]
fn parse_description_trailing_space_gives_empty_name() {
    let info = parse_as_description("AS7 ", 8).unwrap();
    assert_eq!(info.asn, 7);
    assert_eq!(info.name, "");
}

#[test]
fn parse_description_accepts_leading_zeros() {
    let info = parse_as_description("AS007 Zeros", 8).unwrap();
    assert_eq!(info.asn, 7);
    assert_eq!(info.name, "Zeros");
}

#[test]
fn parse_description_without_prefix_is_absent() {
    assert!(parse_as_description("B15169 Google Inc.", 24).is_none());
    assert!(parse_as_description("as15169 Google Inc.", 24).is_none());
    assert!(parse_as_description("15169 Google Inc.", 24).is_none());
    assert!(parse_as_description("", 24).is_none());
}

#[test]
fn parse_description_without_number_is_absent() {
    assert!(parse_as_description("AS", 24).is_none());
    assert!(parse_as_description("AS Google Inc.", 24).is_none());
    assert!(parse_as_description("ASfoo bar", 24).is_none());
    assert!(parse_as_description("AS12x34 bar", 24).is_none());
}

#[test]
fn parse_description_overflowing_number_is_absent() {
    assert!(parse_as_description("AS4294967296 too big", 24).is_none());
    let info = parse_as_description("AS4294967295 fits", 24).unwrap();
    assert_eq!(info.asn, u32::MAX);
}

#[test]
fn network_info_absent_on_null_description() {
    assert!(network_info_outcome(None, 24).is_none());
}

#[test]
fn network_info_absent_on_invalid_text() {
    assert!(network_info_outcome(Some(vec![0x41, 0x53, 0xff, 0xfe]), 24).is_none());
}

#[test]
fn network_info_parses_valid_description() {
    let info = network_info_outcome(Some(b"AS15169 Google Inc.".to_vec()), 24).unwrap();
    assert_eq!(info.asn, 15169);
    assert_eq!(info.name, "Google Inc.".to_string());
    assert_eq!(info.netmask, 24);
}

#[test]
fn network_info_is_idempotent_for_equal_inputs() {
    let a = network_info_outcome(Some(b"AS15169 Google Inc.".to_vec()), 24).unwrap();
    let b = network_info_outcome(Some(b"AS15169 Google Inc.".to_vec()), 24).unwrap();
    assert_eq!(a.asn, b.asn);
    assert_eq!(a.name, b.name);
    assert_eq!(a.netmask, b.netmask);
}
