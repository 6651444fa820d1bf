//! Spot checks of the platform key-code tables.

use input_device::keys::Key;

#[test]
fn plain_scan_codes() {
    assert_eq!(Key::Esc.scan_code(), 0x01);
    assert_eq!(Key::A.scan_code(), 0x1E);
    assert_eq!(Key::Space.scan_code(), 0x39);
    assert_eq!(Key::F12.scan_code(), 0x58);
    assert_eq!(Key::Kp0.scan_code(), 0x52);
}

#[test]
fn extended_scan_codes() {
    assert_eq!(Key::Home.scan_code(), 0xE047);
    assert_eq!(Key::Up.scan_code(), 0xE048);
    assert_eq!(Key::LeftMeta.scan_code(), 0xE05B);
    assert!(Key::is_extended_scan(Key::Home.scan_code()));
    assert!(Key::is_extended_scan(Key::RightMeta.scan_code()));
    assert!(!Key::is_extended_scan(Key::A.scan_code()));
    assert!(!Key::is_extended_scan(Key::Delete.scan_code()));
}

#[test]
fn unmapped_keys_fall_back() {
    assert_eq!(Key::ScreenLock.scan_code(), 0xFF);
    assert_eq!(Key::BrightnessZero.scan_code(), 0xFF);
}

#[test]
fn mac_key_codes() {
    assert_eq!(Key::A.mac_key_code(), Some(0x00));
    assert_eq!(Key::Enter.mac_key_code(), Some(0x24));
    assert_eq!(Key::LeftMeta.mac_key_code(), Some(0x37));
    assert_eq!(Key::Num1.mac_key_code(), Some(0x12));
    assert_eq!(Key::Katakana.mac_key_code(), None);
    assert_eq!(Key::SysRq.mac_key_code(), None);
}
