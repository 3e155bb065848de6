use wdi::Error;
use wdi::NativeString;

#[test]
fn native_string_accepts_null_free_input() {
    let s = NativeString::new("C:\\usb_driver").unwrap();
    assert_eq!(s.as_bytes(), b"C:\\usb_driver");
    assert_eq!(s.len(), 13);
}

#[test]
fn native_string_accepts_empty_input() {
    let s = NativeString::new("").unwrap();
    assert_eq!(s.as_bytes(), b"");
    assert_eq!(s.len(), 0);
}

#[test]
fn native_string_keeps_multibyte_characters() {
    let s = NativeString::new("Gerät µ").unwrap();
    assert_eq!(s.as_bytes(), "Gerät µ".as_bytes());
}

#[test]
fn native_string_rejects_embedded_null() {
    assert!(matches!(NativeString::new("a\0b"), Err(Error::Nul)));
    assert!(matches!(NativeString::new("\0"), Err(Error::Nul)));
    assert!(matches!(NativeString::new("trailing\0"), Err(Error::Nul)));
}
