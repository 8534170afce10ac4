use ddcutil::caps::{Capabilities, RawCapVcp, RawCapabilities};
use ddcutil::features::RawMccsVersion;
use ddcutil::status::ErrorKind;

#[test]
fn parses_version_and_feature_with_values() {
    let s = b"(mccs_ver(2.1)vcp(10(00 01 02)))".to_vec();
    let caps = Capabilities::from_bytes(&s).unwrap();
    assert_eq!(caps.version.major, 2);
    assert_eq!(caps.version.minor, 1);
    assert_eq!(caps.features.len(), 1);
    assert_eq!(caps.features[&0x10], vec![0x00, 0x01, 0x02]);
}

#[test]
fn parses_realistic_capability_string() {
    let s = b"(prot(monitor)type(LCD)model(U3011)cmds(01 02 03 07 0c e3 f3)\
vcp(02 04 10 12 14(05 08 0b) 16 cc(01 02 03) d6(01 04 05))mccs_ver(2.2))"
        .to_vec();
    let caps = Capabilities::from_bytes(&s).unwrap();
    assert_eq!(caps.version.major, 2);
    assert_eq!(caps.version.minor, 2);
    assert_eq!(caps.features.len(), 8);
    assert_eq!(caps.features[&0x02], Vec::<u8>::new());
    assert_eq!(caps.features[&0x14], vec![0x05, 0x08, 0x0b]);
    assert_eq!(caps.features[&0xcc], vec![0x01, 0x02, 0x03]);
    assert_eq!(caps.features[&0xd6], vec![0x01, 0x04, 0x05]);
}

#[test]
fn every_declared_code_is_a_key_with_its_list_in_order() {
    let s = b"(vcp(60(0f 10 11 12) 62 8d(01 02)))".to_vec();
    let caps = Capabilities::from_bytes(&s).unwrap();
    let mut keys: Vec<u8> = caps.features.keys().copied().collect();
    keys.sort();
    assert_eq!(keys, vec![0x60, 0x62, 0x8d]);
    assert_eq!(caps.features[&0x60], vec![0x0f, 0x10, 0x11, 0x12]);
    assert_eq!(caps.features[&0x62], Vec::<u8>::new());
    assert_eq!(caps.features[&0x8d], vec![0x01, 0x02]);
}

#[test]
fn later_declaration_of_a_code_wins() {
    let s = b"(vcp(10(01) 10(02 03)))".to_vec();
    let caps = Capabilities::from_bytes(&s).unwrap();
    assert_eq!(caps.features.len(), 1);
    assert_eq!(caps.features[&0x10], vec![0x02, 0x03]);
}

#[test]
fn missing_version_defaults_to_zero() {
    let s = b"(vcp(10))".to_vec();
    let caps = Capabilities::from_bytes(&s).unwrap();
    assert_eq!(caps.version.major, 0);
    assert_eq!(caps.version.minor, 0);
    assert_eq!(caps.features[&0x10], Vec::<u8>::new());
}

#[test]
fn empty_vcp_segment_yields_empty_mapping() {
    let s = b"(vcp()mccs_ver(3.0))".to_vec();
    let caps = Capabilities::from_bytes(&s).unwrap();
    assert_eq!(caps.version.major, 3);
    assert_eq!(caps.version.minor, 0);
    assert!(caps.features.is_empty());
}

#[test]
fn malformed_strings_surface_parse_errors() {
    for bad in [
        &b"garbage"[..],
        &b""[..],
        &b"(vcp(10)"[..],
        &b"(vcp(zz))"[..],
        &b"(mccs_ver(2))"[..],
        &b"(mccs_ver(2.))"[..],
        &b"(mccs_ver(999.1))"[..],
        &b"(vcp(10(01))"[..],
    ] {
        let e = Capabilities::from_bytes(&bad.to_vec()).unwrap_err();
        assert_eq!(e.kind, ErrorKind::Parse);
    }
}

#[test]
fn whitespace_is_tolerated_between_tokens() {
    let s = b"  ( mccs_ver( 2.1 ) vcp( 10 ( 00 01 ) 12 ) )".to_vec();
    let caps = Capabilities::from_bytes(&s).unwrap();
    assert_eq!(caps.version.major, 2);
    assert_eq!(caps.version.minor, 1);
    assert_eq!(caps.features[&0x10], vec![0x00, 0x01]);
    assert_eq!(caps.features[&0x12], Vec::<u8>::new());
}

#[test]
fn from_raw_copies_the_parsed_tree() {
    let raw = RawCapabilities {
        version: RawMccsVersion { major: 2, minor: 1 },
        vcp_codes: vec![
            RawCapVcp { feature_code: 0x10, values: vec![0x00, 0x01, 0x02] },
            RawCapVcp { feature_code: 0x60, values: vec![] },
        ],
    };
    let caps = Capabilities::from_raw(&raw);
    assert_eq!(caps.version.major, 2);
    assert_eq!(caps.version.minor, 1);
    assert_eq!(caps.features.len(), 2);
    assert_eq!(caps.features[&0x10], vec![0x00, 0x01, 0x02]);
    assert_eq!(caps.features[&0x60], Vec::<u8>::new());
}
