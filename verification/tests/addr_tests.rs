use geoip::{EncodedAddress, NetworkAddress};

#[test]
fn encode_v4_packs_network_byte_order() {
    let addr = NetworkAddress::V4([8, 8, 8, 8]);
    match addr.encode() {
        EncodedAddress::V4(v) => assert_eq!(v, 0x0808_0808),
        _ => panic!("wrong family"),
    }
}

#[test]
fn encode_v4_most_significant_byte_first() {
    let addr = NetworkAddress::V4([1, 2, 3, 4]);
    match addr.encode() {
        EncodedAddress::V4(v) => assert_eq!(v, 0x0102_0304),
        _ => panic!("wrong family"),
    }
}

#[test]
fn encode_v4_extremes() {
    match NetworkAddress::V4([0, 0, 0, 0]).encode() {
        EncodedAddress::V4(v) => assert_eq!(v, 0),
        _ => panic!("wrong family"),
    }
    match NetworkAddress::V4([255, 255, 255, 255]).encode() {
        EncodedAddress::V4(v) => assert_eq!(v, u32::MAX),
        _ => panic!("wrong family"),
    }
}

#[test]
fn encode_v6_groups_big_endian() {
    // 2001:4860:4860::8888
    let addr = NetworkAddress::V6([0x2001, 0x4860, 0x4860, 0, 0, 0, 0, 0x8888]);
    match addr.encode() {
        EncodedAddress::V6(b) => {
            assert_eq!(
                b,
                [
                    0x20, 0x01, 0x48, 0x60, 0x48, 0x60, 0x00, 0x00, 0x00, 0x00, 0x00, 0x00, 0x00,
                    0x00, 0x88, 0x88
                ]
            );
        }
        _ => panic!("wrong family"),
    }
}

#[test]
fn encode_is_deterministic() {
    let addr = NetworkAddress::V4([93, 184, 216, 34]);
    assert_eq!(addr.encode(), addr.encode());
    let addr6 = NetworkAddress::V6([0xfe80, 0, 0, 0, 0x1234, 0x5678, 0x9abc, 0xdef0]);
    assert_eq!(addr6.encode(), addr6.encode());
}
