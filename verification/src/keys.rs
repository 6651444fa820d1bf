//! Physical keyboard keys and their platform code tables.

use vstd::prelude::*;

verus! {

/// A physical keyboard key.
///
/// Each variant represents a location on the keyboard, independent of the
/// active layout: pressing [`Key::Q`] triggers the key found where 'Q' sits
/// on a standard QWERTY layout, even if the layout in use maps that position
/// to another character. This makes [`Key`] suitable for callers that care
/// about physical key positions rather than the characters they produce,
/// such as games or custom input handling.
#[derive(Clone, Copy, Debug, Hash, PartialEq, Eq, Structural)]
pub enum Key {
    Esc,
    Num1,
    Num2,
    Num3,
    Num4,
    Num5,
    Num6,
    Num7,
    Num8,
    Num9,
    Num0,
    Minus,
    Equal,
    Backspace,
    Tab,
    Q,
    W,
    E,
    R,
    T,
    Y,
    U,
    I,
    O,
    P,
    LeftBrace,
    RightBrace,
    Enter,
    LeftCtrl,
    A,
    S,
    D,
    F,
    G,
    H,
    J,
    K,
    L,
    Semicolon,
    Apostrophe,
    Grave,
    LeftShift,
    Backslash,
    Z,
    X,
    C,
    V,
    B,
    N,
    M,
    Comma,
    Dot,
    Slash,
    RightShift,
    KpAsterisk,
    LeftAlt,
    Space,
    CapsLock,
    F1,
    F2,
    F3,
    F4,
    F5,
    F6,
    F7,
    F8,
    F9,
    F10,
    NumLock,
    ScrollLock,
    Kp7,
    Kp8,
    Kp9,
    KpMinus,
    Kp4,
    Kp5,
    Kp6,
    KpPlus,
    Kp1,
    Kp2,
    Kp3,
    Kp0,
    KpDot,
    ZenkakuHankaku,
    IntlBackslash,
    F11,
    F12,
    Ro,
    Katakana,
    Hiragana,
    Henkan,
    KatakanaHiragana,
    Muhenkan,
    KpJpComma,
    KpEnter,
    RightCtrl,
    KpSlash,
    SysRq,
    RightAlt,
    Home,
    Up,
    PageUp,
    Left,
    Right,
    End,
    Down,
    PageDown,
    Insert,
    Delete,
    Macro,
    Mute,
    VolumeDown,
    VolumeUp,
    Power,
    KpEqual,
    KpPlusMinus,
    Pause,
    KpComma,
    Hanguel,
    Hanja,
    Yen,
    LeftMeta,
    RightMeta,
    Compose,
    Stop,
    Help,
    Calc,
    Sleep,
    WakeUp,
    ScreenLock,
    Mail,
    Bookmarks,
    Computer,
    Back,
    Forward,
    NextSong,
    PlayPause,
    PreviousSong,
    StopCD,
    Homepage,
    Refresh,
    F13,
    F14,
    F15,
    F23,
    Camera,
    Search,
    BrightnessDown,
    BrightnessUp,
    Media,
    SwitchVideoMode,
    Battery,
    Wlan,
    BrightnessZero,
    Dvd,
    FnEsc,
}

impl Key {
    /// The set 1 ("XT") scan code sent for this key, with extended keys
    /// carrying the 0xE000 prefix; keys the scan-code set does not cover map
    /// to 0xFF.
    pub open spec fn spec_scan_code(self) -> u16 {
        match self {
            Key::Esc => 0x01,
            Key::Num1 => 0x02,
            Key::Num2 => 0x03,
            Key::Num3 => 0x04,
            Key::Num4 => 0x05,
            Key::Num5 => 0x06,
            Key::Num6 => 0x07,
            Key::Num7 => 0x08,
            Key::Num8 => 0x09,
            Key::Num9 => 0x0A,
            Key::Num0 => 0x0B,
            Key::Minus => 0x0C,
            Key::Equal => 0x0D,
            Key::Backspace => 0x0E,
            Key::Tab => 0x0F,
            Key::Q => 0x10,
            Key::W => 0x11,
            Key::E => 0x12,
            Key::R => 0x13,
            Key::T => 0x14,
            Key::Y => 0x15,
            Key::U => 0x16,
            Key::I => 0x17,
            Key::O => 0x18,
            Key::P => 0x19,
            Key::LeftBrace => 0x1A,
            Key::RightBrace => 0x1B,
            Key::Enter => 0x1C,
            Key::LeftCtrl => 0x1D,
            Key::A => 0x1E,
            Key::S => 0x1F,
            Key::D => 0x20,
            Key::F => 0x21,
            Key::G => 0x22,
            Key::H => 0x23,
            Key::J => 0x24,
            Key::K => 0x25,
            Key::L => 0x26,
            Key::Semicolon => 0x27,
            Key::Apostrophe => 0x28,
            Key::Grave => 0x29,
            Key::LeftShift => 0x2A,
            Key::Backslash => 0x2B,
            Key::Z => 0x2C,
            Key::X => 0x2D,
            Key::C => 0x2E,
            Key::V => 0x2F,
            Key::B => 0x30,
            Key::N => 0x31,
            Key::M => 0x32,
            Key::Comma => 0x33,
            Key::Dot => 0x34,
            Key::Slash => 0x35,
            Key::RightShift => 0x36,
            Key::KpAsterisk => 0x37,
            Key::LeftAlt => 0x38,
            Key::Space => 0x39,
            Key::CapsLock => 0x3A,
            Key::F1 => 0x3B,
            Key::F2 => 0x3C,
            Key::F3 => 0x3D,
            Key::F4 => 0x3E,
            Key::F5 => 0x3F,
            Key::F6 => 0x40,
            Key::F7 => 0x41,
            Key::F8 => 0x42,
            Key::F9 => 0x43,
            Key::F10 => 0x44,
            Key::NumLock => 0x45,
            Key::ScrollLock => 0x46,
            Key::Kp7 => 0x47,
            Key::Kp8 => 0x48,
            Key::Kp9 => 0x49,
            Key::KpMinus => 0x4A,
            Key::Kp4 => 0x4B,
            Key::Kp5 => 0x4C,
            Key::Kp6 => 0x4D,
            Key::KpPlus => 0x4E,
            Key::Kp1 => 0x4F,
            Key::Kp2 => 0x50,
            Key::Kp3 => 0x51,
            Key::Kp0 => 0x52,
            Key::KpDot => 0x53,
            Key::ZenkakuHankaku => 0x56,
            Key::IntlBackslash => 0x64,
            Key::F11 => 0x57,
            Key::F12 => 0x58,
            Key::Ro => 0x59,
            Key::Katakana => 0x5A,
            Key::Hiragana => 0x5B,
            Key::Henkan => 0x5C,
            Key::KatakanaHiragana => 0x5D,
            Key::Muhenkan => 0x5E,
            Key::KpJpComma => 0x5F,
            Key::KpEnter => 0x60,
            Key::RightCtrl => 0x61,
            Key::KpSlash => 0x62,
            Key::SysRq => 0x63,
            Key::RightAlt => 0x64,
            Key::Home => 0xE047,
            Key::Up => 0xE048,
            Key::PageUp => 0xE049,
            Key::Left => 0xE04B,
            Key::Right => 0xE04D,
            Key::End => 0xE04F,
            Key::Down => 0xE050,
            Key::PageDown => 0xE051,
            Key::Insert => 0xE052,
            Key::Delete => 0xE9,
            Key::Macro => 0xEA,
            Key::Mute => 0xEB,
            Key::VolumeDown => 0xEC,
            Key::VolumeUp => 0xED,
            Key::Power => 0xEE,
            Key::KpEqual => 0xEF,
            Key::KpPlusMinus => 0xF0,
            Key::Pause => 0xF1,
            Key::KpComma => 0xF2,
            Key::Hanguel => 0xF3,
            Key::Hanja => 0xF4,
            Key::Yen => 0xF5,
            Key::LeftMeta => 0xE05B,
            Key::RightMeta => 0xE05C,
            Key::Compose => 0xF8,
            Key::Stop => 0xF9,
            Key::Help => 0xFA,
            Key::Calc => 0xFB,
            Key::Sleep => 0xFC,
            Key::WakeUp => 0xFD,
            Key::Mail => 0xFE,
            Key::Bookmarks => 0xFF,
            Key::Computer => 0x100,
            Key::Back => 0x101,
            Key::Forward => 0x102,
            Key::NextSong => 0x103,
            Key::PlayPause => 0x104,
            Key::PreviousSong => 0x105,
            Key::StopCD => 0x106,
            Key::Homepage => 0x107,
            Key::Refresh => 0x108,
            Key::F13 => 0x109,
            Key::F14 => 0x10A,
            Key::F15 => 0x10B,
            Key::F23 => 0x10C,
            Key::Camera => 0x10D,
            Key::Search => 0x10E,
            Key::BrightnessDown => 0x10F,
            Key::BrightnessUp => 0x110,
            Key::Media => 0x111,
            Key::SwitchVideoMode => 0x112,
            Key::Battery => 0x113,
            Key::Wlan => 0x114,
            Key::Dvd => 0x115,
            Key::FnEsc => 0x116,
            _ => 0xFF,
        }
    }

    /// The scan code injected for this key.
    pub fn scan_code(self) -> (r: u16)
        ensures
            r == self.spec_scan_code(),
    {
        match self {
            Key::Esc => 0x01,
            Key::Num1 => 0x02,
            Key::Num2 => 0x03,
            Key::Num3 => 0x04,
            Key::Num4 => 0x05,
            Key::Num5 => 0x06,
            Key::Num6 => 0x07,
            Key::Num7 => 0x08,
            Key::Num8 => 0x09,
            Key::Num9 => 0x0A,
            Key::Num0 => 0x0B,
            Key::Minus => 0x0C,
            Key::Equal => 0x0D,
            Key::Backspace => 0x0E,
            Key::Tab => 0x0F,
            Key::Q => 0x10,
            Key::W => 0x11,
            Key::E => 0x12,
            Key::R => 0x13,
            Key::T => 0x14,
            Key::Y => 0x15,
            Key::U => 0x16,
            Key::I => 0x17,
            Key::O => 0x18,
            Key::P => 0x19,
            Key::LeftBrace => 0x1A,
            Key::RightBrace => 0x1B,
            Key::Enter => 0x1C,
            Key::LeftCtrl => 0x1D,
            Key::A => 0x1E,
            Key::S => 0x1F,
            Key::D => 0x20,
            Key::F => 0x21,
            Key::G => 0x22,
            Key::H => 0x23,
            Key::J => 0x24,
            Key::K => 0x25,
            Key::L => 0x26,
            Key::Semicolon => 0x27,
            Key::Apostrophe => 0x28,
            Key::Grave => 0x29,
            Key::LeftShift => 0x2A,
            Key::Backslash => 0x2B,
            Key::Z => 0x2C,
            Key::X => 0x2D,
            Key::C => 0x2E,
            Key::V => 0x2F,
            Key::B => 0x30,
            Key::N => 0x31,
            Key::M => 0x32,
            Key::Comma => 0x33,
            Key::Dot => 0x34,
            Key::Slash => 0x35,
            Key::RightShift => 0x36,
            Key::KpAsterisk => 0x37,
            Key::LeftAlt => 0x38,
            Key::Space => 0x39,
            Key::CapsLock => 0x3A,
            Key::F1 => 0x3B,
            Key::F2 => 0x3C,
            Key::F3 => 0x3D,
            Key::F4 => 0x3E,
            Key::F5 => 0x3F,
            Key::F6 => 0x40,
            Key::F7 => 0x41,
            Key::F8 => 0x42,
            Key::F9 => 0x43,
            Key::F10 => 0x44,
            Key::NumLock => 0x45,
            Key::ScrollLock => 0x46,
            Key::Kp7 => 0x47,
            Key::Kp8 => 0x48,
            Key::Kp9 => 0x49,
            Key::KpMinus => 0x4A,
            Key::Kp4 => 0x4B,
            Key::Kp5 => 0x4C,
            Key::Kp6 => 0x4D,
            Key::KpPlus => 0x4E,
            Key::Kp1 => 0x4F,
            Key::Kp2 => 0x50,
            Key::Kp3 => 0x51,
            Key::Kp0 => 0x52,
            Key::KpDot => 0x53,
            Key::ZenkakuHankaku => 0x56,
            Key::IntlBackslash => 0x64,
            Key::F11 => 0x57,
            Key::F12 => 0x58,
            Key::Ro => 0x59,
            Key::Katakana => 0x5A,
            Key::Hiragana => 0x5B,
            Key::Henkan => 0x5C,
            Key::KatakanaHiragana => 0x5D,
            Key::Muhenkan => 0x5E,
            Key::KpJpComma => 0x5F,
            Key::KpEnter => 0x60,
            Key::RightCtrl => 0x61,
            Key::KpSlash => 0x62,
            Key::SysRq => 0x63,
            Key::RightAlt => 0x64,
            Key::Home => 0xE047,
            Key::Up => 0xE048,
            Key::PageUp => 0xE049,
            Key::Left => 0xE04B,
            Key::Right => 0xE04D,
            Key::End => 0xE04F,
            Key::Down => 0xE050,
            Key::PageDown => 0xE051,
            Key::Insert => 0xE052,
            Key::Delete => 0xE9,
            Key::Macro => 0xEA,
            Key::Mute => 0xEB,
            Key::VolumeDown => 0xEC,
            Key::VolumeUp => 0xED,
            Key::Power => 0xEE,
            Key::KpEqual => 0xEF,
            Key::KpPlusMinus => 0xF0,
            Key::Pause => 0xF1,
            Key::KpComma => 0xF2,
            Key::Hanguel => 0xF3,
            Key::Hanja => 0xF4,
            Key::Yen => 0xF5,
            Key::LeftMeta => 0xE05B,
            Key::RightMeta => 0xE05C,
            Key::Compose => 0xF8,
            Key::Stop => 0xF9,
            Key::Help => 0xFA,
            Key::Calc => 0xFB,
            Key::Sleep => 0xFC,
            Key::WakeUp => 0xFD,
            Key::Mail => 0xFE,
            Key::Bookmarks => 0xFF,
            Key::Computer => 0x100,
            Key::Back => 0x101,
            Key::Forward => 0x102,
            Key::NextSong => 0x103,
            Key::PlayPause => 0x104,
            Key::PreviousSong => 0x105,
            Key::StopCD => 0x106,
            Key::Homepage => 0x107,
            Key::Refresh => 0x108,
            Key::F13 => 0x109,
            Key::F14 => 0x10A,
            Key::F15 => 0x10B,
            Key::F23 => 0x10C,
            Key::Camera => 0x10D,
            Key::Search => 0x10E,
            Key::BrightnessDown => 0x10F,
            Key::BrightnessUp => 0x110,
            Key::Media => 0x111,
            Key::SwitchVideoMode => 0x112,
            Key::Battery => 0x113,
            Key::Wlan => 0x114,
            Key::Dvd => 0x115,
            Key::FnEsc => 0x116,
            _ => 0xFF,
        }
    }

    /// Whether a scan code carries the extended-key prefix and must be
    /// injected with the extended-key flag.
    pub fn is_extended_scan(scan: u16) -> (r: bool)
        ensures
            r == (scan & 0xE000 == 0xE000),
    {
        scan & 0xE000 == 0xE000
    }

    /// The macOS virtual key code for this key, where one exists.
    pub open spec fn spec_mac_key_code(self) -> Option<u16> {
        match self {
            Key::A => Some(0x00),
            Key::B => Some(0x0B),
            Key::C => Some(0x08),
            Key::D => Some(0x02),
            Key::E => Some(0x0E),
            Key::F => Some(0x03),
            Key::G => Some(0x05),
            Key::H => Some(0x04),
            Key::I => Some(0x22),
            Key::J => Some(0x26),
            Key::K => Some(0x28),
            Key::L => Some(0x25),
            Key::M => Some(0x2E),
            Key::N => Some(0x2D),
            Key::O => Some(0x1F),
            Key::P => Some(0x23),
            Key::Q => Some(0x0C),
            Key::R => Some(0x0F),
            Key::S => Some(0x01),
            Key::T => Some(0x11),
            Key::U => Some(0x20),
            Key::V => Some(0x09),
            Key::W => Some(0x0D),
            Key::X => Some(0x07),
            Key::Y => Some(0x10),
            Key::Z => Some(0x06),
            Key::Num1 => Some(0x12),
            Key::Num2 => Some(0x13),
            Key::Num3 => Some(0x14),
            Key::Num4 => Some(0x15),
            Key::Num5 => Some(0x17),
            Key::Num6 => Some(0x16),
            Key::Num7 => Some(0x1A),
            Key::Num8 => Some(0x1C),
            Key::Num9 => Some(0x19),
            Key::Num0 => Some(0x1D),
            Key::Minus => Some(0x1B),
            Key::Equal => Some(0x18),
            Key::LeftBrace => Some(0x21),
            Key::RightBrace => Some(0x1E),
            Key::Backslash => Some(0x2A),
            Key::Semicolon => Some(0x29),
            Key::Apostrophe => Some(0x27),
            Key::Grave => Some(0x32),
            Key::Comma => Some(0x2B),
            Key::Dot => Some(0x2F),
            Key::Slash => Some(0x2C),
            Key::Enter => Some(0x24),
            Key::Tab => Some(0x30),
            Key::Space => Some(0x31),
            Key::Backspace => Some(0x33),
            Key::Esc => Some(0x35),
            Key::LeftCtrl => Some(0x3B),
            Key::RightCtrl => Some(0x3E),
            Key::LeftAlt => Some(0x3A),
            Key::RightAlt => Some(0x3D),
            Key::LeftShift => Some(0x38),
            Key::RightShift => Some(0x3C),
            Key::CapsLock => Some(0x39),
            Key::LeftMeta => Some(0x37),
            Key::RightMeta => Some(0x36),
            Key::Help => Some(0x72),
            Key::F1 => Some(0x7A),
            Key::F2 => Some(0x78),
            Key::F3 => Some(0x63),
            Key::F4 => Some(0x76),
            Key::F5 => Some(0x60),
            Key::F6 => Some(0x61),
            Key::F7 => Some(0x62),
            Key::F8 => Some(0x64),
            Key::F9 => Some(0x65),
            Key::F10 => Some(0x6D),
            Key::F11 => Some(0x67),
            Key::F12 => Some(0x6F),
            Key::F13 => Some(0x69),
            Key::F14 => Some(0x6B),
            Key::F15 => Some(0x71),
            Key::Home => Some(0x73),
            Key::End => Some(0x77),
            Key::PageUp => Some(0x74),
            Key::PageDown => Some(0x79),
            Key::Up => Some(0x7E),
            Key::Down => Some(0x7D),
            Key::Left => Some(0x7B),
            Key::Right => Some(0x7C),
            Key::VolumeUp => Some(0x48),
            Key::VolumeDown => Some(0x49),
            Key::Mute => Some(0x4A),
            Key::IntlBackslash => Some(0x0A),
            Key::Yen => Some(0x5D),
            Key::KpJpComma => Some(0x5F),
            Key::KpEqual => Some(0x51),
            Key::KpEnter => Some(0x4C),
            Key::KpSlash => Some(0x4B),
            Key::KpAsterisk => Some(0x43),
            Key::KpMinus => Some(0x4E),
            Key::KpPlus => Some(0x45),
            Key::Kp0 => Some(0x52),
            Key::Kp1 => Some(0x53),
            Key::Kp2 => Some(0x54),
            Key::Kp3 => Some(0x55),
            Key::Kp4 => Some(0x56),
            Key::Kp5 => Some(0x57),
            Key::Kp6 => Some(0x58),
            Key::Kp7 => Some(0x59),
            Key::Kp8 => Some(0x5B),
            Key::Kp9 => Some(0x5C),
            Key::KpDot => Some(0x41),
            Key::KpPlusMinus => Some(0x51),
            _ => None,
        }
    }

    /// The macOS virtual key code injected for this key, where one exists.
    pub fn mac_key_code(self) -> (r: Option<u16>)
        ensures
            r == self.spec_mac_key_code(),
    {
        match self {
            Key::A => Some(0x00),
            Key::B => Some(0x0B),
            Key::C => Some(0x08),
            Key::D => Some(0x02),
            Key::E => Some(0x0E),
            Key::F => Some(0x03),
            Key::G => Some(0x05),
            Key::H => Some(0x04),
            Key::I => Some(0x22),
            Key::J => Some(0x26),
            Key::K => Some(0x28),
            Key::L => Some(0x25),
            Key::M => Some(0x2E),
            Key::N => Some(0x2D),
            Key::O => Some(0x1F),
            Key::P => Some(0x23),
            Key::Q => Some(0x0C),
            Key::R => Some(0x0F),
            Key::S => Some(0x01),
            Key::T => Some(0x11),
            Key::U => Some(0x20),
            Key::V => Some(0x09),
            Key::W => Some(0x0D),
            Key::X => Some(0x07),
            Key::Y => Some(0x10),
            Key::Z => Some(0x06),
            Key::Num1 => Some(0x12),
            Key::Num2 => Some(0x13),
            Key::Num3 => Some(0x14),
            Key::Num4 => Some(0x15),
            Key::Num5 => Some(0x17),
            Key::Num6 => Some(0x16),
            Key::Num7 => Some(0x1A),
            Key::Num8 => Some(0x1C),
            Key::Num9 => Some(0x19),
            Key::Num0 => Some(0x1D),
            Key::Minus => Some(0x1B),
            Key::Equal => Some(0x18),
            Key::LeftBrace => Some(0x21),
            Key::RightBrace => Some(0x1E),
            Key::Backslash => Some(0x2A),
            Key::Semicolon => Some(0x29),
            Key::Apostrophe => Some(0x27),
            Key::Grave => Some(0x32),
            Key::Comma => Some(0x2B),
            Key::Dot => Some(0x2F),
            Key::Slash => Some(0x2C),
            Key::Enter => Some(0x24),
            Key::Tab => Some(0x30),
            Key::Space => Some(0x31),
            Key::Backspace => Some(0x33),
            Key::Esc => Some(0x35),
            Key::LeftCtrl => Some(0x3B),
            Key::RightCtrl => Some(0x3E),
            Key::LeftAlt => Some(0x3A),
            Key::RightAlt => Some(0x3D),
            Key::LeftShift => Some(0x38),
            Key::RightShift => Some(0x3C),
            Key::CapsLock => Some(0x39),
            Key::LeftMeta => Some(0x37),
            Key::RightMeta => Some(0x36),
            Key::Help => Some(0x72),
            Key::F1 => Some(0x7A),
            Key::F2 => Some(0x78),
            Key::F3 => Some(0x63),
            Key::F4 => Some(0x76),
            Key::F5 => Some(0x60),
            Key::F6 => Some(0x61),
            Key::F7 => Some(0x62),
            Key::F8 => Some(0x64),
            Key::F9 => Some(0x65),
            Key::F10 => Some(0x6D),
            Key::F11 => Some(0x67),
            Key::F12 => Some(0x6F),
            Key::F13 => Some(0x69),
            Key::F14 => Some(0x6B),
            Key::F15 => Some(0x71),
            Key::Home => Some(0x73),
            Key::End => Some(0x77),
            Key::PageUp => Some(0x74),
            Key::PageDown => Some(0x79),
            Key::Up => Some(0x7E),
            Key::Down => Some(0x7D),
            Key::Left => Some(0x7B),
            Key::Right => Some(0x7C),
            Key::VolumeUp => Some(0x48),
            Key::VolumeDown => Some(0x49),
            Key::Mute => Some(0x4A),
            Key::IntlBackslash => Some(0x0A),
            Key::Yen => Some(0x5D),
            Key::KpJpComma => Some(0x5F),
            Key::KpEqual => Some(0x51),
            Key::KpEnter => Some(0x4C),
            Key::KpSlash => Some(0x4B),
            Key::KpAsterisk => Some(0x43),
            Key::KpMinus => Some(0x4E),
            Key::KpPlus => Some(0x45),
            Key::Kp0 => Some(0x52),
            Key::Kp1 => Some(0x53),
            Key::Kp2 => Some(0x54),
            Key::Kp3 => Some(0x55),
            Key::Kp4 => Some(0x56),
            Key::Kp5 => Some(0x57),
            Key::Kp6 => Some(0x58),
            Key::Kp7 => Some(0x59),
            Key::Kp8 => Some(0x5B),
            Key::Kp9 => Some(0x5C),
            Key::KpDot => Some(0x41),
            Key::KpPlusMinus => Some(0x51),
            _ => None,
        }
    }
}

} // verus!
