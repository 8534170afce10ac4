use ddcutil::features::{
    FeatureMetadata, RawFeatureMetadata, RawFeatureValueEntry, FLAG_RW, FLAG_SIMPLE_NC,
    FLAG_STD_CONT,
};
use ddcutil::status::{ErrorKind, STATUS_UNKNOWN_FEATURE};

fn raw_meta(flags: u16) -> RawFeatureMetadata {
    RawFeatureMetadata {
        name: b"Input Source".to_vec(),
        description: b"Selects the active input".to_vec(),
        sl_values: vec![
            RawFeatureValueEntry { value_code: 0x0f, value_name: b"DisplayPort-1".to_vec() },
            RawFeatureValueEntry { value_code: 0x11, value_name: b"HDMI-1".to_vec() },
        ],
        feature_flags: flags,
    }
}

#[test]
fn simple_nc_metadata_keeps_value_names() {
    let m = FeatureMetadata::from_raw(&raw_meta(FLAG_RW | FLAG_SIMPLE_NC));
    assert_eq!(m.name, "Input Source");
    assert_eq!(m.description, "Selects the active input");
    assert_eq!(m.value_names.len(), 2);
    assert_eq!(m.value_names[&0x0f], "DisplayPort-1");
    assert_eq!(m.value_names[&0x11], "HDMI-1");
    assert!(m.flags.is_readable());
    assert!(m.flags.is_writable());
    assert!(m.flags.is_nc());
}

#[test]
fn non_simple_nc_metadata_has_no_value_names() {
    let m = FeatureMetadata::from_raw(&raw_meta(FLAG_RW | FLAG_STD_CONT));
    assert!(m.value_names.is_empty());
    assert!(m.flags.is_cont());
}

#[test]
fn metadata_lookup_failure_is_mapped() {
    let e = FeatureMetadata::from_code(STATUS_UNKNOWN_FEATURE, &raw_meta(0)).unwrap_err();
    assert_eq!(e.status, STATUS_UNKNOWN_FEATURE);
    assert_eq!(e.kind, ErrorKind::UnsupportedFeature);
}

#[test]
fn metadata_lookup_success_marshals_the_record() {
    let m = FeatureMetadata::from_code(0, &raw_meta(FLAG_SIMPLE_NC)).unwrap();
    assert_eq!(m.name, "Input Source");
    assert_eq!(m.description, "Selects the active input");
    assert_eq!(m.value_names.len(), 2);
    assert_eq!(m.value_names[&0x0f], "DisplayPort-1");
    assert_eq!(m.flags.bits(), FLAG_SIMPLE_NC);
}

#[test]
fn duplicate_value_codes_keep_the_last_label() {
    let raw = RawFeatureMetadata {
        name: Vec::new(),
        description: Vec::new(),
        sl_values: vec![
            RawFeatureValueEntry { value_code: 0x01, value_name: b"first".to_vec() },
            RawFeatureValueEntry { value_code: 0x01, value_name: b"second".to_vec() },
        ],
        feature_flags: FLAG_SIMPLE_NC,
    };
    let m = FeatureMetadata::from_raw(&raw);
    assert_eq!(m.value_names.len(), 1);
    assert_eq!(m.value_names[&0x01], "second");
}
