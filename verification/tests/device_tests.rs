use yubi_tray_rs::device::{format_device_info, scan, DeviceRecord};

fn record(
    vendor_id: u16,
    product_id: u16,
    product: Option<&str>,
    serial: Option<&str>,
) -> DeviceRecord {
    DeviceRecord {
        vendor_id,
        product_id,
        product: product.map(|s| s.to_string()),
        serial: serial.map(|s| s.to_string()),
    }
}

#[test]
fn other_vendors_yield_absence() {
    let devices = vec![
        record(0x0000, 0x0001, Some("Mouse"), None),
        record(0x1234, 0x5678, Some("Keyboard"), Some("k-1")),
        record(0xffff, 0x0407, Some("Imposter"), Some("x")),
        record(0x104f, 0x0407, None, None),
        record(0x1051, 0x0407, None, None),
    ];
    assert_eq!(scan(&devices), None);
}

#[test]
fn empty_enumeration_yields_absence() {
    assert_eq!(scan(&Vec::new()), None);
}

#[test]
fn first_matching_device_is_reported() {
    let devices = vec![
        record(0x1234, 0x0001, Some("Mouse"), None),
        record(0x1050, 0x0407, Some("YubiKey 5"), Some("one")),
        record(0x1050, 0x0402, Some("YubiKey 4"), Some("two")),
    ];
    assert_eq!(
        scan(&devices),
        Some("YubiKey 5\nS/N: one\nID: 1050:0407".to_string())
    );
}

#[test]
fn description_with_serial() {
    let d = record(0x1050, 0x0407, Some("YubiKey 5"), Some("1234567"));
    assert_eq!(format_device_info(&d), "YubiKey 5\nS/N: 1234567\nID: 1050:0407");
}

#[test]
fn empty_serial_is_omitted() {
    let d = record(0x1050, 0x0407, Some("YubiKey 5"), Some(""));
    assert_eq!(format_device_info(&d), "YubiKey 5\nID: 1050:0407");
}

#[test]
fn absent_serial_is_omitted() {
    let d = record(0x1050, 0x0407, Some("YubiKey 5"), None);
    assert_eq!(format_device_info(&d), "YubiKey 5\nID: 1050:0407");
}

#[test]
fn missing_product_gets_default_name() {
    let d = record(0x1050, 0x0116, None, None);
    assert_eq!(format_device_info(&d), "Unknown Device\nID: 1050:0116");
}

#[test]
fn identifiers_format_as_four_hex_digits() {
    let d = record(0x1050, 0xbeef, None, None);
    assert_eq!(format_device_info(&d), "Unknown Device\nID: 1050:beef");
    let d = record(0x0001, 0x00ab, None, None);
    assert_eq!(format_device_info(&d), "Unknown Device\nID: 0001:00ab");
    let d = record(0x0000, 0x0000, None, None);
    assert_eq!(format_device_info(&d), "Unknown Device\nID: 0000:0000");
    let d = record(0xffff, 0xfedc, None, None);
    assert_eq!(format_device_info(&d), "Unknown Device\nID: ffff:fedc");
}
