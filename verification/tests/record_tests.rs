use geoip::record::{name_lookup_outcome, record_lookup_outcome};
use geoip::{maybe_code, CityInfo, RawRecord, RecordLifecycle};

fn sample_record() -> RawRecord {
    RawRecord {
        country_code: Some(b"US".to_vec()),
        country_code3: Some(b"USA".to_vec()),
        country_name: Some(b"United States".to_vec()),
        region: Some(b"CA".to_vec()),
        city: Some(b"Mountain View".to_vec()),
        postal_code: Some(b"94043".to_vec()),
        latitude_bits: 37.386f32.to_bits(),
        longitude_bits: (-122.0838f32).to_bits(),
        dma_code: 807,
        area_code: 650,
        continent_code: Some(b"NA".to_vec()),
        netmask: 24,
    }
}

fn bare_record() -> RawRecord {
    RawRecord {
        country_code: None,
        country_code3: None,
        country_name: None,
        region: None,
        city: None,
        postal_code: None,
        latitude_bits: 0,
        longitude_bits: 0,
        dma_code: 0,
        area_code: 0,
        continent_code: None,
        netmask: 0,
    }
}

#[test]
fn maybe_code_zero_is_absent() {
    assert_eq!(maybe_code(0), None);
}

#[test]
fn maybe_code_nonzero_is_present_with_exact_value() {
    assert_eq!(maybe_code(650), Some(650));
    assert_eq!(maybe_code(807), Some(807));
    assert_eq!(maybe_code(1), Some(1));
}

#[test]
fn decode_record_present_fields() {
    let info = CityInfo::from_raw_record(sample_record());
    assert_eq!(info.country_code, Some("US".to_string()));
    assert_eq!(info.country_code3, Some("USA".to_string()));
    assert_eq!(info.country_name, Some("United States".to_string()));
    assert_eq!(info.region, Some("CA".to_string()));
    assert_eq!(info.city, Some("Mountain View".to_string()));
    assert_eq!(info.postal_code, Some("94043".to_string()));
    assert_eq!(info.dma_code, Some(807));
    assert_eq!(info.area_code, Some(650));
    assert_eq!(info.continent_code, Some("NA".to_string()));
    assert_eq!(info.netmask, 24);
    assert_eq!(f32::from_bits(info.latitude_bits), 37.386f32);
    assert_eq!(f32::from_bits(info.longitude_bits), -122.0838f32);
}

#[test]
fn decode_record_zero_codes_are_absent() {
    let info = CityInfo::from_raw_record(bare_record());
    assert_eq!(info.dma_code, None);
    assert_eq!(info.area_code, None);
    assert_eq!(info.city, None);
    assert_eq!(info.country_code, None);
}

#[test]
fn decode_record_invalid_text_degrades_to_absent() {
    let mut rec = sample_record();
    rec.city = Some(vec![0xff, 0xfe]);
    let info = CityInfo::from_raw_record(rec);
    assert_eq!(info.city, None);
    assert_eq!(info.region, Some("CA".to_string()));
}

#[test]
fn lifecycle_copies_then_frees_exactly_once() {
    let mut session = RecordLifecycle::begin();
    session.copy_record(sample_record());
    session.record_freed();
    let info = session.finish();
    assert_eq!(info.city, Some("Mountain View".to_string()));
    assert_eq!(info.area_code, Some(650));
}

#[test]
fn record_lookup_absent_on_null() {
    assert!(record_lookup_outcome(None).is_none());
    let r = record_lookup_outcome(Some(sample_record())).unwrap();
    assert_eq!(r.city, Some("Mountain View".to_string()));
}

#[test]
fn name_lookup_prefers_primary() {
    let mut fallback = sample_record();
    fallback.city = Some(b"Palo Alto".to_vec());
    let r = name_lookup_outcome(Some(sample_record()), Some(fallback)).unwrap();
    assert_eq!(r.city, Some("Mountain View".to_string()));
}

#[test]
fn name_lookup_falls_back_when_primary_absent() {
    let r = name_lookup_outcome(None, Some(sample_record())).unwrap();
    assert_eq!(r.city, Some("Mountain View".to_string()));
    assert!(name_lookup_outcome(None, None).is_none());
}

#[test]
fn decode_is_idempotent_for_equal_records() {
    let a = CityInfo::from_raw_record(sample_record());
    let b = CityInfo::from_raw_record(sample_record());
    assert_eq!(a.country_code, b.country_code);
    assert_eq!(a.city, b.city);
    assert_eq!(a.dma_code, b.dma_code);
    assert_eq!(a.area_code, b.area_code);
    assert_eq!(a.latitude_bits, b.latitude_bits);
    assert_eq!(a.longitude_bits, b.longitude_bits);
    assert_eq!(a.netmask, b.netmask);
}
