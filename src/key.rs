use vstd::prelude::*;

verus! {

/// Identity of a physical keyboard key, independent of any platform scan code.
///
/// `Separator` fills horizontal gaps in a layout; `Unknown` stands for every
/// platform code that has no key of its own.
#[derive(Clone, Copy, Debug, PartialEq, Eq, Hash, Structural)]
pub enum Key {
    // letters
    Q,
    W,
    E,
    R,
    T,
    Y,
    U,
    I,
    O,
    P,
    A,
    S,
    D,
    F,
    G,
    H,
    J,
    K,
    L,
    Z,
    X,
    C,
    V,
    B,
    N,
    M,

    // digits
    One,
    Two,
    Three,
    Four,
    Five,
    Six,
    Seven,
    Eight,
    Nine,
    Zero,

    // function keys
    F1,
    F2,
    F3,
    F4,
    F5,
    F6,
    F7,
    F8,
    F9,
    F10,
    F11,
    F12,

    // punctuation
    Grave,
    Hyphen,
    Plus,
    LeftBracket,
    RightBracket,
    Backslash,
    SemiColon,
    Apostrophe,
    Comma,
    Period,
    QuestionMark,

    // modifiers and editing keys
    Esc,
    Tab,
    CapsLock,
    LeftShift,
    LeftCtrl,
    LeftSuper,
    LeftAlt,
    Spacebar,
    RightAlt,
    RightSuper,
    RightCtrl,
    RightShift,
    Return,
    Backspace,
    Command,

    // navigation
    PrintScreen,
    ScrollLock,
    PauseBreak,
    Insert,
    Home,
    PgUp,
    Delete,
    End,
    PgDown,
    ArrowUp,
    ArrowLeft,
    ArrowDown,
    ArrowRight,

    // layout filler and fallback
    Separator,
    Unknown,
}

/// Number of variants of `Key`; every key's index lies below it.
pub const KEY_COUNT: u8 = 89;

impl Key {
    /// Position of the key in the enumeration.
    pub open spec fn spec_index(self) -> u8 {
        match self {
            Key::Q => 0,
            Key::W => 1,
            Key::E => 2,
            Key::R => 3,
            Key::T => 4,
            Key::Y => 5,
            Key::U => 6,
            Key::I => 7,
            Key::O => 8,
            Key::P => 9,
            Key::A => 10,
            Key::S => 11,
            Key::D => 12,
            Key::F => 13,
            Key::G => 14,
            Key::H => 15,
            Key::J => 16,
            Key::K => 17,
            Key::L => 18,
            Key::Z => 19,
            Key::X => 20,
            Key::C => 21,
            Key::V => 22,
            Key::B => 23,
            Key::N => 24,
            Key::M => 25,
            Key::One => 26,
            Key::Two => 27,
            Key::Three => 28,
            Key::Four => 29,
            Key::Five => 30,
            Key::Six => 31,
            Key::Seven => 32,
            Key::Eight => 33,
            Key::Nine => 34,
            Key::Zero => 35,
            Key::F1 => 36,
            Key::F2 => 37,
            Key::F3 => 38,
            Key::F4 => 39,
            Key::F5 => 40,
            Key::F6 => 41,
            Key::F7 => 42,
            Key::F8 => 43,
            Key::F9 => 44,
            Key::F10 => 45,
            Key::F11 => 46,
            Key::F12 => 47,
            Key::Grave => 48,
            Key::Hyphen => 49,
            Key::Plus => 50,
            Key::LeftBracket => 51,
            Key::RightBracket => 52,
            Key::Backslash => 53,
            Key::SemiColon => 54,
            Key::Apostrophe => 55,
            Key::Comma => 56,
            Key::Period => 57,
            Key::QuestionMark => 58,
            Key::Esc => 59,
            Key::Tab => 60,
            Key::CapsLock => 61,
            Key::LeftShift => 62,
            Key::LeftCtrl => 63,
            Key::LeftSuper => 64,
            Key::LeftAlt => 65,
            Key::Spacebar => 66,
            Key::RightAlt => 67,
            Key::RightSuper => 68,
            Key::RightCtrl => 69,
            Key::RightShift => 70,
            Key::Return => 71,
            Key::Backspace => 72,
            Key::Command => 73,
            Key::PrintScreen => 74,
            Key::ScrollLock => 75,
            Key::PauseBreak => 76,
            Key::Insert => 77,
            Key::Home => 78,
            Key::PgUp => 79,
            Key::Delete => 80,
            Key::End => 81,
            Key::PgDown => 82,
            Key::ArrowUp => 83,
            Key::ArrowLeft => 84,
            Key::ArrowDown => 85,
            Key::ArrowRight => 86,
            Key::Separator => 87,
            Key::Unknown => 88,
        }
    }

    /// The key at a given position of the enumeration (`Unknown` past the end).
    pub open spec fn from_index(i: u8) -> Key {
        match i {
            0 => Key::Q,
            1 => Key::W,
            2 => Key::E,
            3 => Key::R,
            4 => Key::T,
            5 => Key::Y,
            6 => Key::U,
            7 => Key::I,
            8 => Key::O,
            9 => Key::P,
            10 => Key::A,
            11 => Key::S,
            12 => Key::D,
            13 => Key::F,
            14 => Key::G,
            15 => Key::H,
            16 => Key::J,
            17 => Key::K,
            18 => Key::L,
            19 => Key::Z,
            20 => Key::X,
            21 => Key::C,
            22 => Key::V,
            23 => Key::B,
            24 => Key::N,
            25 => Key::M,
            26 => Key::One,
            27 => Key::Two,
            28 => Key::Three,
            29 => Key::Four,
            30 => Key::Five,
            31 => Key::Six,
            32 => Key::Seven,
            33 => Key::Eight,
            34 => Key::Nine,
            35 => Key::Zero,
            36 => Key::F1,
            37 => Key::F2,
            38 => Key::F3,
            39 => Key::F4,
            40 => Key::F5,
            41 => Key::F6,
            42 => Key::F7,
            43 => Key::F8,
            44 => Key::F9,
            45 => Key::F10,
            46 => Key::F11,
            47 => Key::F12,
            48 => Key::Grave,
            49 => Key::Hyphen,
            50 => Key::Plus,
            51 => Key::LeftBracket,
            52 => Key::RightBracket,
            53 => Key::Backslash,
            54 => Key::SemiColon,
            55 => Key::Apostrophe,
            56 => Key::Comma,
            57 => Key::Period,
            58 => Key::QuestionMark,
            59 => Key::Esc,
            60 => Key::Tab,
            61 => Key::CapsLock,
            62 => Key::LeftShift,
            63 => Key::LeftCtrl,
            64 => Key::LeftSuper,
            65 => Key::LeftAlt,
            66 => Key::Spacebar,
            67 => Key::RightAlt,
            68 => Key::RightSuper,
            69 => Key::RightCtrl,
            70 => Key::RightShift,
            71 => Key::Return,
            72 => Key::Backspace,
            73 => Key::Command,
            74 => Key::PrintScreen,
            75 => Key::ScrollLock,
            76 => Key::PauseBreak,
            77 => Key::Insert,
            78 => Key::Home,
            79 => Key::PgUp,
            80 => Key::Delete,
            81 => Key::End,
            82 => Key::PgDown,
            83 => Key::ArrowUp,
            84 => Key::ArrowLeft,
            85 => Key::ArrowDown,
            86 => Key::ArrowRight,
            87 => Key::Separator,
            _ => Key::Unknown,
        }
    }

    /// Position of the key in the enumeration; distinct keys have distinct indices.
    pub fn index(&self) -> (r: u8)
        ensures
            r == self.spec_index(),
            r < KEY_COUNT,
    {
        match self {
            Key::Q => 0,
            Key::W => 1,
            Key::E => 2,
            Key::R => 3,
            Key::T => 4,
            Key::Y => 5,
            Key::U => 6,
            Key::I => 7,
            Key::O => 8,
            Key::P => 9,
            Key::A => 10,
            Key::S => 11,
            Key::D => 12,
            Key::F => 13,
            Key::G => 14,
            Key::H => 15,
            Key::J => 16,
            Key::K => 17,
            Key::L => 18,
            Key::Z => 19,
            Key::X => 20,
            Key::C => 21,
            Key::V => 22,
            Key::B => 23,
            Key::N => 24,
            Key::M => 25,
            Key::One => 26,
            Key::Two => 27,
            Key::Three => 28,
            Key::Four => 29,
            Key::Five => 30,
            Key::Six => 31,
            Key::Seven => 32,
            Key::Eight => 33,
            Key::Nine => 34,
            Key::Zero => 35,
            Key::F1 => 36,
            Key::F2 => 37,
            Key::F3 => 38,
            Key::F4 => 39,
            Key::F5 => 40,
            Key::F6 => 41,
            Key::F7 => 42,
            Key::F8 => 43,
            Key::F9 => 44,
            Key::F10 => 45,
            Key::F11 => 46,
            Key::F12 => 47,
            Key::Grave => 48,
            Key::Hyphen => 49,
            Key::Plus => 50,
            Key::LeftBracket => 51,
            Key::RightBracket => 52,
            Key::Backslash => 53,
            Key::SemiColon => 54,
            Key::Apostrophe => 55,
            Key::Comma => 56,
            Key::Period => 57,
            Key::QuestionMark => 58,
            Key::Esc => 59,
            Key::Tab => 60,
            Key::CapsLock => 61,
            Key::LeftShift => 62,
            Key::LeftCtrl => 63,
            Key::LeftSuper => 64,
            Key::LeftAlt => 65,
            Key::Spacebar => 66,
            Key::RightAlt => 67,
            Key::RightSuper => 68,
            Key::RightCtrl => 69,
            Key::RightShift => 70,
            Key::Return => 71,
            Key::Backspace => 72,
            Key::Command => 73,
            Key::PrintScreen => 74,
            Key::ScrollLock => 75,
            Key::PauseBreak => 76,
            Key::Insert => 77,
            Key::Home => 78,
            Key::PgUp => 79,
            Key::Delete => 80,
            Key::End => 81,
            Key::PgDown => 82,
            Key::ArrowUp => 83,
            Key::ArrowLeft => 84,
            Key::ArrowDown => 85,
            Key::ArrowRight => 86,
            Key::Separator => 87,
            Key::Unknown => 88,
        }
    }

    /// `from_index` undoes `spec_index`.
    pub proof fn lemma_index_round_trip(self)
        ensures
            Key::from_index(self.spec_index()) == self,
            self.spec_index() < KEY_COUNT,
    {
    }

    /// `spec_index` undoes `from_index` below `KEY_COUNT`.
    pub proof fn lemma_from_index_round_trip(i: u8)
        requires
            i < KEY_COUNT,
        ensures
            Key::from_index(i).spec_index() == i,
    {
    }

    /// Distinct keys have distinct indices.
    pub proof fn lemma_index_injective()
        ensures
            forall|a: Key, b: Key| #[trigger] a.spec_index() == #[trigger] b.spec_index() ==> a == b,
    {
        assert forall|a: Key, b: Key| #[trigger] a.spec_index() == #[trigger] b.spec_index() implies a == b by {
            a.lemma_index_round_trip();
            b.lemma_index_round_trip();
        }
    }

    /// Text shown on the key: its name, or a glyph pair for some punctuation keys.
    pub open spec fn spec_label(self) -> Seq<char> {
        match self {
            Key::Q => "Q"@,
            Key::W => "W"@,
            Key::E => "E"@,
            Key::R => "R"@,
            Key::T => "T"@,
            Key::Y => "Y"@,
            Key::U => "U"@,
            Key::I => "I"@,
            Key::O => "O"@,
            Key::P => "P"@,
            Key::A => "A"@,
            Key::S => "S"@,
            Key::D => "D"@,
            Key::F => "F"@,
            Key::G => "G"@,
            Key::H => "H"@,
            Key::J => "J"@,
            Key::K => "K"@,
            Key::L => "L"@,
            Key::Z => "Z"@,
            Key::X => "X"@,
            Key::C => "C"@,
            Key::V => "V"@,
            Key::B => "B"@,
            Key::N => "N"@,
            Key::M => "M"@,
            Key::One => "One"@,
            Key::Two => "Two"@,
            Key::Three => "Three"@,
            Key::Four => "Four"@,
            Key::Five => "Five"@,
            Key::Six => "Six"@,
            Key::Seven => "Seven"@,
            Key::Eight => "Eight"@,
            Key::Nine => "Nine"@,
            Key::Zero => "Zero"@,
            Key::F1 => "F1"@,
            Key::F2 => "F2"@,
            Key::F3 => "F3"@,
            Key::F4 => "F4"@,
            Key::F5 => "F5"@,
            Key::F6 => "F6"@,
            Key::F7 => "F7"@,
            Key::F8 => "F8"@,
            Key::F9 => "F9"@,
            Key::F10 => "F10"@,
            Key::F11 => "F11"@,
            Key::F12 => "F12"@,
            Key::Grave => "Grave"@,
            Key::Hyphen => "Hyphen"@,
            Key::Plus => "Plus"@,
            Key::LeftBracket => "[{"@,
            Key::RightBracket => "]}"@,
            Key::Backslash => "|\\"@,
            Key::SemiColon => "SemiColon"@,
            Key::Apostrophe => "Apostrophe"@,
            Key::Comma => "Comma"@,
            Key::Period => "Period"@,
            Key::QuestionMark => "QuestionMark"@,
            Key::Esc => "Esc"@,
            Key::Tab => "Tab"@,
            Key::CapsLock => "CapsLock"@,
            Key::LeftShift => "LeftShift"@,
            Key::LeftCtrl => "LeftCtrl"@,
            Key::LeftSuper => "LeftSuper"@,
            Key::LeftAlt => "LeftAlt"@,
            Key::Spacebar => "Spacebar"@,
            Key::RightAlt => "RightAlt"@,
            Key::RightSuper => "RightSuper"@,
            Key::RightCtrl => "RightCtrl"@,
            Key::RightShift => "RightShift"@,
            Key::Return => "Return"@,
            Key::Backspace => "Backspace"@,
            Key::Command => "Command"@,
            Key::PrintScreen => "PrintScreen"@,
            Key::ScrollLock => "ScrollLock"@,
            Key::PauseBreak => "PauseBreak"@,
            Key::Insert => "Insert"@,
            Key::Home => "Home"@,
            Key::PgUp => "PgUp"@,
            Key::Delete => "Delete"@,
            Key::End => "End"@,
            Key::PgDown => "PgDown"@,
            Key::ArrowUp => "ArrowUp"@,
            Key::ArrowLeft => "ArrowLeft"@,
            Key::ArrowDown => "ArrowDown"@,
            Key::ArrowRight => "ArrowRight"@,
            Key::Separator => "Separator"@,
            Key::Unknown => "Unknown"@,
        }
    }

    /// Text shown on the key: its name, or a glyph pair for some punctuation keys.
    pub fn label(&self) -> (r: &'static str)
        ensures
            r@ == self.spec_label(),
    {
        match self {
            Key::Q => "Q",
            Key::W => "W",
            Key::E => "E",
            Key::R => "R",
            Key::T => "T",
            Key::Y => "Y",
            Key::U => "U",
            Key::I => "I",
            Key::O => "O",
            Key::P => "P",
            Key::A => "A",
            Key::S => "S",
            Key::D => "D",
            Key::F => "F",
            Key::G => "G",
            Key::H => "H",
            Key::J => "J",
            Key::K => "K",
            Key::L => "L",
            Key::Z => "Z",
            Key::X => "X",
            Key::C => "C",
            Key::V => "V",
            Key::B => "B",
            Key::N => "N",
            Key::M => "M",
            Key::One => "One",
            Key::Two => "Two",
            Key::Three => "Three",
            Key::Four => "Four",
            Key::Five => "Five",
            Key::Six => "Six",
            Key::Seven => "Seven",
            Key::Eight => "Eight",
            Key::Nine => "Nine",
            Key::Zero => "Zero",
            Key::F1 => "F1",
            Key::F2 => "F2",
            Key::F3 => "F3",
            Key::F4 => "F4",
            Key::F5 => "F5",
            Key::F6 => "F6",
            Key::F7 => "F7",
            Key::F8 => "F8",
            Key::F9 => "F9",
            Key::F10 => "F10",
            Key::F11 => "F11",
            Key::F12 => "F12",
            Key::Grave => "Grave",
            Key::Hyphen => "Hyphen",
            Key::Plus => "Plus",
            Key::LeftBracket => "[{",
            Key::RightBracket => "]}",
            Key::Backslash => "|\\",
            Key::SemiColon => "SemiColon",
            Key::Apostrophe => "Apostrophe",
            Key::Comma => "Comma",
            Key::Period => "Period",
            Key::QuestionMark => "QuestionMark",
            Key::Esc => "Esc",
            Key::Tab => "Tab",
            Key::CapsLock => "CapsLock",
            Key::LeftShift => "LeftShift",
            Key::LeftCtrl => "LeftCtrl",
            Key::LeftSuper => "LeftSuper",
            Key::LeftAlt => "LeftAlt",
            Key::Spacebar => "Spacebar",
            Key::RightAlt => "RightAlt",
            Key::RightSuper => "RightSuper",
            Key::RightCtrl => "RightCtrl",
            Key::RightShift => "RightShift",
            Key::Return => "Return",
            Key::Backspace => "Backspace",
            Key::Command => "Command",
            Key::PrintScreen => "PrintScreen",
            Key::ScrollLock => "ScrollLock",
            Key::PauseBreak => "PauseBreak",
            Key::Insert => "Insert",
            Key::Home => "Home",
            Key::PgUp => "PgUp",
            Key::Delete => "Delete",
            Key::End => "End",
            Key::PgDown => "PgDown",
            Key::ArrowUp => "ArrowUp",
            Key::ArrowLeft => "ArrowLeft",
            Key::ArrowDown => "ArrowDown",
            Key::ArrowRight => "ArrowRight",
            Key::Separator => "Separator",
            Key::Unknown => "Unknown",
        }
    }
}

} // verus!
