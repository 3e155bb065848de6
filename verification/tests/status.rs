use wdi::Error;
use wdi::check_error;

#[test]
fn success_maps_to_ok() {
    assert_eq!(check_error(wdi::WDI_SUCCESS), Ok(()));
    assert_eq!(check_error(0), Ok(()));
}

#[test]
fn every_recognized_code_maps_to_its_kind() {
    let table: Vec<(i32, Error)> = vec![
        (wdi::WDI_ERROR_IO, Error::Io),
        (wdi::WDI_ERROR_INVALID_PARAM, Error::InvalidParam),
        (wdi::WDI_ERROR_ACCESS, Error::Access),
        (wdi::WDI_ERROR_NO_DEVICE, Error::NoDevice),
        (wdi::WDI_ERROR_NOT_FOUND, Error::NotFound),
        (wdi::WDI_ERROR_BUSY, Error::Busy),
        (wdi::WDI_ERROR_TIMEOUT, Error::Timeout),
        (wdi::WDI_ERROR_OVERFLOW, Error::Overflow),
        (wdi::WDI_ERROR_PENDING_INSTALLATION, Error::PendingInstallation),
        (wdi::WDI_ERROR_INTERRUPTED, Error::Interrupted),
        (wdi::WDI_ERROR_RESOURCE, Error::Resource),
        (wdi::WDI_ERROR_NOT_SUPPORTED, Error::NotSupported),
        (wdi::WDI_ERROR_EXISTS, Error::Exists),
        (wdi::WDI_ERROR_USER_CANCEL, Error::UserCancel),
        (wdi::WDI_ERROR_NEEDS_ADMIN, Error::NeedsAdmin),
        (wdi::WDI_ERROR_WOW64, Error::WOW64),
        (wdi::WDI_ERROR_INF_SYNTAX, Error::InfSyntax),
        (wdi::WDI_ERROR_CAT_MISSING, Error::CatMissing),
        (wdi::WDI_ERROR_UNSIGNED, Error::Unsigned),
        (wdi::WDI_ERROR_OTHER, Error::Other),
    ];
    for (code, kind) in table {
        assert_eq!(check_error(code), Err(kind));
        // Deterministic: asking twice gives the same kind.
        assert_eq!(check_error(code), Err(kind));
    }
}

#[test]
fn recognized_code_values() {
    assert_eq!(wdi::WDI_SUCCESS, 0);
    assert_eq!(wdi::WDI_ERROR_IO, -1);
    assert_eq!(wdi::WDI_ERROR_NEEDS_ADMIN, -15);
    assert_eq!(wdi::WDI_ERROR_UNSIGNED, -19);
    assert_eq!(wdi::WDI_ERROR_OTHER, -99);
}

#[test]
fn unrecognized_code_round_trips_in_unexpected() {
    for code in [-1234, -20, -98, -100, 1, 7, i32::MIN, i32::MAX] {
        assert_eq!(check_error(code), Err(Error::Unexpected(code)));
    }
}

#[test]
fn driver_type_encodings() {
    assert_eq!(wdi::DriverType::WinUsb.to_ffi(), 0);
    assert_eq!(wdi::DriverType::LibUsb0.to_ffi(), 1);
    assert_eq!(wdi::DriverType::LibUsbK.to_ffi(), 2);
    assert_eq!(wdi::DriverType::Cdc.to_ffi(), 3);
    assert_eq!(wdi::DriverType::User.to_ffi(), 4);
}

#[test]
fn log_level_encodings() {
    assert_eq!(wdi::LogLevel::Debug.to_ffi(), 0);
    assert_eq!(wdi::LogLevel::Info.to_ffi(), 1);
    assert_eq!(wdi::LogLevel::Warning.to_ffi(), 2);
    assert_eq!(wdi::LogLevel::Error.to_ffi(), 3);
    assert_eq!(wdi::LogLevel::Off.to_ffi(), 4);
}
