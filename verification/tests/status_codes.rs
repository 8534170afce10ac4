use ddcutil::status::{
    Error, ErrorKind, STATUS_ARG, STATUS_DDC_DATA, STATUS_INTERPRETATION_FAILED,
    STATUS_INVALID_DISPLAY, STATUS_NOT_FOUND, STATUS_REPORTED_UNSUPPORTED, STATUS_RETRIES,
};

#[test]
fn zero_is_success() {
    assert!(Error::from_status(0).is_ok());
}

#[test]
fn known_codes_map_deterministically() {
    let e = Error::from_status(STATUS_INVALID_DISPLAY).unwrap_err();
    assert_eq!(e.status, STATUS_INVALID_DISPLAY);
    assert_eq!(e.kind, ErrorKind::InvalidDisplay);
    assert_eq!(
        Error::from_status(STATUS_INVALID_DISPLAY).unwrap_err().kind,
        ErrorKind::InvalidDisplay
    );
    assert_eq!(Error::from_status(STATUS_DDC_DATA).unwrap_err().kind, ErrorKind::Io);
    assert_eq!(Error::from_status(STATUS_RETRIES).unwrap_err().kind, ErrorKind::Timeout);
    assert_eq!(
        Error::from_status(STATUS_REPORTED_UNSUPPORTED).unwrap_err().kind,
        ErrorKind::UnsupportedFeature
    );
    assert_eq!(Error::from_status(STATUS_ARG).unwrap_err().kind, ErrorKind::BadArgument);
    assert_eq!(Error::from_status(STATUS_NOT_FOUND).unwrap_err().kind, ErrorKind::NotFound);
    assert_eq!(
        Error::from_status(STATUS_INTERPRETATION_FAILED).unwrap_err().kind,
        ErrorKind::Parse
    );
}

#[test]
fn codes_outside_table_map_to_other() {
    for code in [-1, 1, 42, -2999, -4000, i32::MIN, i32::MAX] {
        let e = Error::from_status(code).unwrap_err();
        assert_eq!(e.status, code);
        assert_eq!(e.kind, ErrorKind::Other);
    }
}

#[test]
fn error_accessors_report_fields() {
    let e = Error::from_status(STATUS_NOT_FOUND).unwrap_err();
    assert_eq!(e.kind(), ErrorKind::NotFound);
    assert_eq!(e.status(), STATUS_NOT_FOUND);
}
