use wdi::DriverInfo;
use wdi::Error;

fn zeroed_info() -> DriverInfo {
    DriverInfo {
        signature: 0,
        struc_version: 0,
        file_version_ms: 0,
        file_version_ls: 0,
        product_version_ms: 0,
        product_version_ls: 0,
        file_flags_mask: 0,
        file_flags: 0,
        file_os: 0,
        file_type: 0,
        file_subtype: 0,
        file_date_ms: 0,
        file_date_ls: 0,
    }
}

#[test]
fn vendor_name_absent_is_not_an_error() {
    // An unknown vendor ID gives no table entry: absence, never an error.
    assert_eq!(wdi::get_vendor_name(None), None);
}

#[test]
fn vendor_name_present_is_passed_through() {
    let name = wdi::get_vendor_name(Some(String::from("OpenMoko, Inc.")));
    assert_eq!(name, Some(String::from("OpenMoko, Inc.")));
}

#[test]
fn driver_supported_wraps_the_info_block() {
    let info = DriverInfo {
        file_version_ms: 0x0006_0001,
        ..zeroed_info()
    };
    assert_eq!(wdi::is_driver_supported(true, info), Some(info));
    assert_eq!(wdi::is_driver_supported(false, info), None);
}

#[test]
fn file_embedded_passes_the_answer_through() {
    assert_eq!(wdi::is_file_embedded(None, "winusb.inf", true), Ok(true));
    assert_eq!(
        wdi::is_file_embedded(Some("x64"), "winusb.inf", false),
        Ok(false)
    );
}

#[test]
fn file_embedded_rejects_embedded_null() {
    assert_eq!(
        wdi::is_file_embedded(Some("x64\0"), "winusb.inf", true),
        Err(Error::Nul)
    );
    assert_eq!(
        wdi::is_file_embedded(None, "winusb\0.inf", true),
        Err(Error::Nul)
    );
}

#[test]
fn read_logger_returns_the_written_size() {
    assert_eq!(wdi::read_logger(wdi::WDI_SUCCESS, 128), Ok(128));
    assert_eq!(wdi::read_logger(wdi::WDI_SUCCESS, 0), Ok(0));
    assert_eq!(
        wdi::read_logger(wdi::WDI_ERROR_NOT_FOUND, 0),
        Err(Error::NotFound)
    );
}
