use vstd::prelude::*;

use crate::key::Key;
use crate::model::{AppEvent, KeyEventType};

verus! {

/// The key that an X11 keycode (the `detail` of a key event) stands for;
/// codes without a key of their own give `Unknown`.
pub open spec fn x11_key(code: u8) -> Key {
    match code {
        9 => Key::Esc,
        10 => Key::One,
        11 => Key::Two,
        12 => Key::Three,
        13 => Key::Four,
        14 => Key::Five,
        15 => Key::Six,
        16 => Key::Seven,
        17 => Key::Eight,
        18 => Key::Nine,
        19 => Key::Zero,
        20 => Key::Hyphen,
        21 => Key::Plus,
        22 => Key::Backspace,
        23 => Key::Tab,
        24 => Key::Q,
        25 => Key::W,
        26 => Key::E,
        27 => Key::R,
        28 => Key::T,
        29 => Key::Y,
        30 => Key::U,
        31 => Key::I,
        32 => Key::O,
        33 => Key::P,
        34 => Key::LeftBracket,
        35 => Key::RightBracket,
        36 => Key::Return,
        37 => Key::LeftCtrl,
        38 => Key::A,
        39 => Key::S,
        40 => Key::D,
        41 => Key::F,
        42 => Key::G,
        43 => Key::H,
        44 => Key::J,
        45 => Key::K,
        46 => Key::L,
        47 => Key::SemiColon,
        48 => Key::Apostrophe,
        49 => Key::Grave,
        50 => Key::LeftShift,
        51 => Key::Backslash,
        52 => Key::Z,
        53 => Key::X,
        54 => Key::C,
        55 => Key::V,
        56 => Key::B,
        57 => Key::N,
        58 => Key::M,
        59 => Key::Comma,
        60 => Key::Period,
        61 => Key::QuestionMark,
        62 => Key::RightShift,
        64 => Key::LeftAlt,
        65 => Key::Spacebar,
        66 => Key::CapsLock,
        67 => Key::F1,
        68 => Key::F2,
        69 => Key::F3,
        70 => Key::F4,
        71 => Key::F5,
        72 => Key::F6,
        73 => Key::F7,
        74 => Key::F8,
        75 => Key::F9,
        76 => Key::F10,
        78 => Key::ScrollLock,
        95 => Key::F11,
        96 => Key::F12,
        105 => Key::RightCtrl,
        108 => Key::RightAlt,
        107 => Key::PrintScreen,
        110 => Key::Home,
        111 => Key::ArrowUp,
        112 => Key::PgUp,
        113 => Key::ArrowLeft,
        114 => Key::ArrowRight,
        115 => Key::End,
        116 => Key::ArrowDown,
        117 => Key::PgDown,
        118 => Key::Insert,
        119 => Key::Delete,
        127 => Key::PauseBreak,
        133 => Key::LeftSuper,
        134 => Key::RightSuper,
        _ => Key::Unknown,
    }
}

impl From<u8> for Key {
    fn from(value: u8) -> Key {
        match value {
            9 => Key::Esc,
            10 => Key::One,
            11 => Key::Two,
            12 => Key::Three,
            13 => Key::Four,
            14 => Key::Five,
            15 => Key::Six,
            16 => Key::Seven,
            17 => Key::Eight,
            18 => Key::Nine,
            19 => Key::Zero,
            20 => Key::Hyphen,
            21 => Key::Plus,
            22 => Key::Backspace,
            23 => Key::Tab,
            24 => Key::Q,
            25 => Key::W,
            26 => Key::E,
            27 => Key::R,
            28 => Key::T,
            29 => Key::Y,
            30 => Key::U,
            31 => Key::I,
            32 => Key::O,
            33 => Key::P,
            34 => Key::LeftBracket,
            35 => Key::RightBracket,
            36 => Key::Return,
            37 => Key::LeftCtrl,
            38 => Key::A,
            39 => Key::S,
            40 => Key::D,
            41 => Key::F,
            42 => Key::G,
            43 => Key::H,
            44 => Key::J,
            45 => Key::K,
            46 => Key::L,
            47 => Key::SemiColon,
            48 => Key::Apostrophe,
            49 => Key::Grave,
            50 => Key::LeftShift,
            51 => Key::Backslash,
            52 => Key::Z,
            53 => Key::X,
            54 => Key::C,
            55 => Key::V,
            56 => Key::B,
            57 => Key::N,
            58 => Key::M,
            59 => Key::Comma,
            60 => Key::Period,
            61 => Key::QuestionMark,
            62 => Key::RightShift,
            64 => Key::LeftAlt,
            65 => Key::Spacebar,
            66 => Key::CapsLock,
            67 => Key::F1,
            68 => Key::F2,
            69 => Key::F3,
            70 => Key::F4,
            71 => Key::F5,
            72 => Key::F6,
            73 => Key::F7,
            74 => Key::F8,
            75 => Key::F9,
            76 => Key::F10,
            78 => Key::ScrollLock,
            95 => Key::F11,
            96 => Key::F12,
            105 => Key::RightCtrl,
            108 => Key::RightAlt,
            107 => Key::PrintScreen,
            110 => Key::Home,
            111 => Key::ArrowUp,
            112 => Key::PgUp,
            113 => Key::ArrowLeft,
            114 => Key::ArrowRight,
            115 => Key::End,
            116 => Key::ArrowDown,
            117 => Key::PgDown,
            118 => Key::Insert,
            119 => Key::Delete,
            127 => Key::PauseBreak,
            133 => Key::LeftSuper,
            134 => Key::RightSuper,
            _ => Key::Unknown,
        }
    }
}

impl vstd::std_specs::convert::FromSpecImpl<u8> for Key {
    open spec fn obeys_from_spec() -> bool {
        true
    }

    open spec fn from_spec(v: u8) -> Key {
        x11_key(v)
    }
}

/// The event for an X11 key press or release with the given keycode.
pub fn x11_key_event(pressed: bool, detail: u8) -> (r: AppEvent)
    ensures
        r == (if pressed {
            AppEvent::KeyEvent(KeyEventType::KeyPressed(x11_key(detail)))
        } else {
            AppEvent::KeyEvent(KeyEventType::KeyReleased(x11_key(detail)))
        }),
{
    let key = Key::from(detail);
    if pressed {
        AppEvent::KeyEvent(KeyEventType::KeyPressed(key))
    } else {
        AppEvent::KeyEvent(KeyEventType::KeyReleased(key))
    }
}

/// Whether the reply to a `_NET_ACTIVE_WINDOW` property query names the active
/// window: it does when it holds exactly one 32-bit value; otherwise the
/// window with the input focus is used instead.
pub fn names_active_window(format: u8, length: u32) -> (r: bool)
    ensures
        r == (format == 32 && length == 1),
{
    format == 32 && length == 1
}

} // verus!
