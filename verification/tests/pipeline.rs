use wdi::DeviceInfo;
use wdi::DriverType;
use wdi::Error;
use wdi::InstallCertOptions;
use wdi::PrepareDriverOptions;

fn device() -> DeviceInfo {
    DeviceInfo {
        vid: 0x1209,
        pid: 0x0001,
        is_composite: false,
        mi: 0,
        driver_version: 0,
        desc: String::from("Test board"),
        driver: None,
        device_id: None,
        hardware_id: None,
        compatible_id: None,
        upper_filter: None,
    }
}

#[test]
fn prepare_options_defaults() {
    let o = PrepareDriverOptions::new();
    assert_eq!(o.driver_type, DriverType::WinUsb);
    assert!(!o.disable_cat);
    assert!(!o.disable_signing);
    assert!(!o.use_wcid_driver);
    assert!(!o.external_inf);
    assert!(o.vendor_name.is_none());
    assert!(o.device_guid.is_none());
    assert!(o.cert_subject.is_none());
}

#[test]
fn prepare_options_builder_accumulates() {
    let o = PrepareDriverOptions::default()
        .driver_type(DriverType::LibUsbK)
        .disable_cat(true)
        .use_wcid_driver(true)
        .vendor_name("Acme Corp")
        .unwrap()
        .device_guid("{12345678-1234-1234-1234-123456789012}")
        .unwrap();
    assert_eq!(o.driver_type, DriverType::LibUsbK);
    assert!(o.disable_cat);
    assert!(!o.disable_signing);
    assert!(o.use_wcid_driver);
    assert_eq!(o.vendor_name.as_ref().unwrap().as_bytes(), b"Acme Corp");
    assert!(o.device_guid.is_some());
    assert!(o.cert_subject.is_none());
}

#[test]
fn string_setters_reject_embedded_null() {
    assert!(matches!(
        PrepareDriverOptions::new().vendor_name("Acme\0Corp"),
        Err(Error::Nul)
    ));
    assert!(matches!(
        PrepareDriverOptions::new().device_guid("\0"),
        Err(Error::Nul)
    ));
    assert!(matches!(
        PrepareDriverOptions::new().cert_subject("CN=x\0"),
        Err(Error::Nul)
    ));
    // No embedded null: accepted, including an empty string.
    assert!(PrepareDriverOptions::new().vendor_name("").is_ok());
}

#[test]
fn prepare_rejects_null_in_path_or_inf_name() {
    let dev = device();
    let r = PrepareDriverOptions::new().prepare_driver(&dev, "C:\\tmp\0", "usb.inf", wdi::WDI_SUCCESS);
    assert!(matches!(r, Err(Error::Nul)));
    let r = PrepareDriverOptions::new().prepare_driver(&dev, "C:\\tmp", "usb\0.inf", wdi::WDI_SUCCESS);
    assert!(matches!(r, Err(Error::Nul)));
    // The string failure is decided before the native outcome is looked at.
    let r = PrepareDriverOptions::new().prepare_driver(&dev, "C:\\tmp\0", "usb.inf", wdi::WDI_ERROR_BUSY);
    assert!(matches!(r, Err(Error::Nul)));
}

#[test]
fn prepare_maps_native_failure() {
    let dev = device();
    let r = PrepareDriverOptions::new().prepare_driver(
        &dev,
        "C:\\tmp",
        "usb.inf",
        wdi::WDI_ERROR_INF_SYNTAX,
    );
    assert!(matches!(r, Err(Error::InfSyntax)));
    let r = PrepareDriverOptions::new().prepare_driver(
        &dev,
        "C:\\tmp",
        "usb.inf",
        wdi::WDI_ERROR_CAT_MISSING,
    );
    assert!(matches!(r, Err(Error::CatMissing)));
}

#[test]
fn prepare_success_retains_device_path_and_inf() {
    let dev = device();
    let prepared = PrepareDriverOptions::new()
        .driver_type(DriverType::WinUsb)
        .prepare_driver(&dev, "C:\\usb_driver", "device.inf", wdi::WDI_SUCCESS)
        .unwrap();
    assert_eq!(prepared.path_bytes(), b"C:\\usb_driver");
    assert_eq!(prepared.inf_name_bytes(), b"device.inf");
    assert_eq!(prepared.device_ref().vid(), 0x1209);
    assert_eq!(prepared.device_ref().pid(), 0x0001);
}

#[test]
fn install_succeeds_on_success_status() {
    let dev = device();
    let prepared = PrepareDriverOptions::new()
        .prepare_driver(&dev, "C:\\usb_driver", "device.inf", wdi::WDI_SUCCESS)
        .unwrap();
    let r = prepared
        .install_filter_driver(false)
        .pending_install_timeout(5000)
        .install_driver(wdi::WDI_SUCCESS);
    assert_eq!(r, Ok(()));
}

#[test]
fn install_surfaces_needs_admin_verbatim() {
    let dev = device();
    let options = PrepareDriverOptions::new().vendor_name("Acme Corp").unwrap();
    let prepared = options
        .clone()
        .prepare_driver(&dev, "C:\\usb_driver", "device.inf", wdi::WDI_SUCCESS)
        .unwrap();
    let r = prepared.install_driver(wdi::WDI_ERROR_NEEDS_ADMIN);
    assert_eq!(r, Err(Error::NeedsAdmin));

    // The documented recovery: redo the whole pipeline with the same inputs
    // from an elevated process; with a success status it then goes through.
    let prepared = options
        .prepare_driver(&dev, "C:\\usb_driver", "device.inf", wdi::WDI_SUCCESS)
        .unwrap();
    assert_eq!(prepared.install_driver(wdi::WDI_SUCCESS), Ok(()));
}

#[test]
fn install_maps_other_failures() {
    let dev = device();
    let prepared = PrepareDriverOptions::new()
        .prepare_driver(&dev, "C:\\usb_driver", "device.inf", wdi::WDI_SUCCESS)
        .unwrap();
    assert_eq!(
        prepared.install_driver(wdi::WDI_ERROR_UNSIGNED),
        Err(Error::Unsigned)
    );
}

#[test]
fn cert_options_builder_and_install() {
    let o = InstallCertOptions::new();
    assert!(!o.disable_warning);
    assert_eq!(o.hwnd, 0);
    let o = InstallCertOptions::default().disable_warning(true).hwnd(42);
    assert!(o.disable_warning);
    assert_eq!(o.hwnd, 42);

    assert_eq!(
        o.install_trusted_certificate("acme.cer", wdi::WDI_SUCCESS),
        Ok(())
    );
    assert_eq!(
        o.install_trusted_certificate("acme.cer", wdi::WDI_ERROR_USER_CANCEL),
        Err(Error::UserCancel)
    );
    assert_eq!(
        o.install_trusted_certificate("acme\0cer", wdi::WDI_SUCCESS),
        Err(Error::Nul)
    );
}
