use ddcutil::features::{
    FeatureFlags, MccsVersion, RawMccsVersion, RawNonTableValue, Value, FLAG_ALL, FLAG_DEPRECATED,
    FLAG_NORMAL_TABLE, FLAG_RO, FLAG_RW, FLAG_SIMPLE_NC, FLAG_STD_CONT, FLAG_WO, FLAG_WO_TABLE,
};

#[test]
fn value_bytes_compose_big_endian() {
    let v = Value { mh: 0x12, ml: 0x34, sh: 0xab, sl: 0xcd };
    assert_eq!(v.value(), 0xabcd);
    assert_eq!(v.maximum(), 0x1234);
}

#[test]
fn value_from_raw_copies_fields() {
    let raw = RawNonTableValue { mh: 1, ml: 2, sh: 3, sl: 4 };
    let v = Value::from_raw(&raw);
    assert_eq!(v, Value { mh: 1, ml: 2, sh: 3, sl: 4 });
    assert_eq!(v.value(), 0x0304);
    assert_eq!(v.maximum(), 0x0102);
}

#[test]
fn value_zero_and_max() {
    let zero = Value { mh: 0, ml: 0, sh: 0, sl: 0 };
    assert_eq!(zero.value(), 0);
    assert_eq!(zero.maximum(), 0);
    let top = Value { mh: 0xff, ml: 0xff, sh: 0xff, sl: 0xff };
    assert_eq!(top.value(), 0xffff);
    assert_eq!(top.maximum(), 0xffff);
}

#[test]
fn mccs_version_round_trip() {
    let v = MccsVersion { major: 2, minor: 1 };
    let raw = v.to_raw();
    assert_eq!(raw.major, 2);
    assert_eq!(raw.minor, 1);
    let back = MccsVersion::from_raw(raw);
    assert_eq!(back, v);
    let raw2 = RawMccsVersion { major: 3, minor: 0 };
    assert_eq!(MccsVersion::from_raw(raw2).to_raw(), raw2);
}

#[test]
fn mccs_version_orders_and_prints() {
    let a = MccsVersion { major: 2, minor: 1 };
    let b = MccsVersion { major: 2, minor: 2 };
    let c = MccsVersion { major: 3, minor: 0 };
    assert!(a < b && b < c);
    assert_eq!(a.to_text(), "2.1");
    assert_eq!(c.to_text(), "3.0");
    assert_eq!(MccsVersion { major: 10, minor: 255 }.to_text(), "10.255");
}

#[test]
fn flags_access_queries() {
    let ro = FeatureFlags::from_bits_truncate(FLAG_RO | FLAG_STD_CONT);
    assert!(ro.is_readable());
    assert!(!ro.is_writable());
    let rw = FeatureFlags::from_bits_truncate(FLAG_RW);
    assert!(rw.is_readable());
    assert!(rw.is_writable());
    let wo = FeatureFlags::from_bits_truncate(FLAG_WO);
    assert!(!wo.is_readable());
    assert!(wo.is_writable());
}

#[test]
fn flags_class_queries() {
    let cont = FeatureFlags::from_bits_truncate(FLAG_STD_CONT);
    assert!(cont.is_cont() && !cont.is_nc() && cont.is_non_table() && !cont.is_table());
    assert!(cont.is_known());
    let nc = FeatureFlags::from_bits_truncate(FLAG_SIMPLE_NC);
    assert!(!nc.is_cont() && nc.is_nc() && nc.is_non_table() && !nc.is_table());
    assert!(nc.is_known());
    let table = FeatureFlags::from_bits_truncate(FLAG_NORMAL_TABLE | FLAG_WO_TABLE);
    assert!(table.is_table() && !table.is_non_table());
    assert!(table.is_known());
    let none = FeatureFlags::from_bits_truncate(FLAG_DEPRECATED);
    assert!(!none.is_known());
}

#[test]
fn flags_truncate_to_vocabulary() {
    let f = FeatureFlags::from_bits_truncate(0xffff);
    assert_eq!(f.bits(), FLAG_ALL);
    let g = FeatureFlags::from_bits_truncate(0x7800 & !FLAG_ALL);
    assert_eq!(g.bits(), 0);
}
