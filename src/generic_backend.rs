use vstd::prelude::*;

use device_query_revamped::Keycode;

use crate::key::Key;
use crate::model::{lemma_press_then_release, replay, AppEvent, KeyEventType, KeyState};

verus! {

/// device_query's `Keycode`, a plain enum without fields: Verus reads its
/// variants, so that the mapping below is checked against them.
#[verifier::external_type_specification]
pub struct ExKeycode(Keycode);

/// The key that a device_query keycode stands for; codes without a key of
/// their own (numpad, lock and print keys) give `Unknown`.
pub open spec fn keycode_key(keycode: Keycode) -> Key {
    match keycode {
        Keycode::Key0 => Key::Zero,
        Keycode::Key1 => Key::One,
        Keycode::Key2 => Key::Two,
        Keycode::Key3 => Key::Three,
        Keycode::Key4 => Key::Four,
        Keycode::Key5 => Key::Five,
        Keycode::Key6 => Key::Six,
        Keycode::Key7 => Key::Seven,
        Keycode::Key8 => Key::Eight,
        Keycode::Key9 => Key::Nine,
        Keycode::A => Key::A,
        Keycode::B => Key::B,
        Keycode::C => Key::C,
        Keycode::D => Key::D,
        Keycode::E => Key::E,
        Keycode::F => Key::F,
        Keycode::G => Key::G,
        Keycode::H => Key::H,
        Keycode::I => Key::I,
        Keycode::J => Key::J,
        Keycode::K => Key::K,
        Keycode::L => Key::L,
        Keycode::M => Key::M,
        Keycode::N => Key::N,
        Keycode::O => Key::O,
        Keycode::P => Key::P,
        Keycode::Q => Key::Q,
        Keycode::R => Key::R,
        Keycode::S => Key::S,
        Keycode::T => Key::T,
        Keycode::U => Key::U,
        Keycode::V => Key::V,
        Keycode::W => Key::W,
        Keycode::X => Key::X,
        Keycode::Y => Key::Y,
        Keycode::Z => Key::Z,
        Keycode::F1 => Key::F1,
        Keycode::F2 => Key::F2,
        Keycode::F3 => Key::F3,
        Keycode::F4 => Key::F4,
        Keycode::F5 => Key::F5,
        Keycode::F6 => Key::F6,
        Keycode::F7 => Key::F7,
        Keycode::F8 => Key::F8,
        Keycode::F9 => Key::F9,
        Keycode::F10 => Key::F10,
        Keycode::F11 => Key::F11,
        Keycode::F12 => Key::F12,
        Keycode::Escape => Key::Esc,
        Keycode::Space => Key::Spacebar,
        Keycode::LControl => Key::LeftCtrl,
        Keycode::RControl => Key::RightCtrl,
        Keycode::LShift => Key::LeftShift,
        Keycode::RShift => Key::RightShift,
        Keycode::LAlt => Key::LeftAlt,
        Keycode::RAlt => Key::RightAlt,
        Keycode::Command => Key::Command,
        Keycode::LMeta => Key::LeftSuper,
        Keycode::RMeta => Key::RightSuper,
        Keycode::Enter => Key::Return,
        Keycode::Up => Key::ArrowUp,
        Keycode::Down => Key::ArrowDown,
        Keycode::Left => Key::ArrowLeft,
        Keycode::Right => Key::ArrowRight,
        Keycode::Backspace => Key::Backspace,
        Keycode::CapsLock => Key::CapsLock,
        Keycode::Tab => Key::Tab,
        Keycode::Home => Key::Home,
        Keycode::End => Key::End,
        Keycode::PageUp => Key::PgUp,
        Keycode::PageDown => Key::PgDown,
        Keycode::Insert => Key::Insert,
        Keycode::Delete => Key::Delete,
        Keycode::Grave => Key::Grave,
        Keycode::Minus => Key::Hyphen,
        Keycode::Equal => Key::Plus,
        Keycode::LeftBracket => Key::LeftBracket,
        Keycode::RightBracket => Key::RightBracket,
        Keycode::BackSlash => Key::Backslash,
        Keycode::Semicolon => Key::SemiColon,
        Keycode::Apostrophe => Key::Apostrophe,
        Keycode::Comma => Key::Comma,
        Keycode::Dot => Key::Period,
        Keycode::Slash => Key::QuestionMark,
        _ => Key::Unknown,
    }
}

/// Maps a device_query keycode to a key; never fails.
pub fn map_keycode(keycode: &Keycode) -> (r: Key)
    ensures
        r == keycode_key(*keycode),
{
    match keycode {
        Keycode::Key0 => Key::Zero,
        Keycode::Key1 => Key::One,
        Keycode::Key2 => Key::Two,
        Keycode::Key3 => Key::Three,
        Keycode::Key4 => Key::Four,
        Keycode::Key5 => Key::Five,
        Keycode::Key6 => Key::Six,
        Keycode::Key7 => Key::Seven,
        Keycode::Key8 => Key::Eight,
        Keycode::Key9 => Key::Nine,
        Keycode::A => Key::A,
        Keycode::B => Key::B,
        Keycode::C => Key::C,
        Keycode::D => Key::D,
        Keycode::E => Key::E,
        Keycode::F => Key::F,
        Keycode::G => Key::G,
        Keycode::H => Key::H,
        Keycode::I => Key::I,
        Keycode::J => Key::J,
        Keycode::K => Key::K,
        Keycode::L => Key::L,
        Keycode::M => Key::M,
        Keycode::N => Key::N,
        Keycode::O => Key::O,
        Keycode::P => Key::P,
        Keycode::Q => Key::Q,
        Keycode::R => Key::R,
        Keycode::S => Key::S,
        Keycode::T => Key::T,
        Keycode::U => Key::U,
        Keycode::V => Key::V,
        Keycode::W => Key::W,
        Keycode::X => Key::X,
        Keycode::Y => Key::Y,
        Keycode::Z => Key::Z,
        Keycode::F1 => Key::F1,
        Keycode::F2 => Key::F2,
        Keycode::F3 => Key::F3,
        Keycode::F4 => Key::F4,
        Keycode::F5 => Key::F5,
        Keycode::F6 => Key::F6,
        Keycode::F7 => Key::F7,
        Keycode::F8 => Key::F8,
        Keycode::F9 => Key::F9,
        Keycode::F10 => Key::F10,
        Keycode::F11 => Key::F11,
        Keycode::F12 => Key::F12,
        Keycode::Escape => Key::Esc,
        Keycode::Space => Key::Spacebar,
        Keycode::LControl => Key::LeftCtrl,
        Keycode::RControl => Key::RightCtrl,
        Keycode::LShift => Key::LeftShift,
        Keycode::RShift => Key::RightShift,
        Keycode::LAlt => Key::LeftAlt,
        Keycode::RAlt => Key::RightAlt,
        Keycode::Command => Key::Command,
        Keycode::LMeta => Key::LeftSuper,
        Keycode::RMeta => Key::RightSuper,
        Keycode::Enter => Key::Return,
        Keycode::Up => Key::ArrowUp,
        Keycode::Down => Key::ArrowDown,
        Keycode::Left => Key::ArrowLeft,
        Keycode::Right => Key::ArrowRight,
        Keycode::Backspace => Key::Backspace,
        Keycode::CapsLock => Key::CapsLock,
        Keycode::Tab => Key::Tab,
        Keycode::Home => Key::Home,
        Keycode::End => Key::End,
        Keycode::PageUp => Key::PgUp,
        Keycode::PageDown => Key::PgDown,
        Keycode::Insert => Key::Insert,
        Keycode::Delete => Key::Delete,
        Keycode::Grave => Key::Grave,
        Keycode::Minus => Key::Hyphen,
        Keycode::Equal => Key::Plus,
        Keycode::LeftBracket => Key::LeftBracket,
        Keycode::RightBracket => Key::RightBracket,
        Keycode::BackSlash => Key::Backslash,
        Keycode::Semicolon => Key::SemiColon,
        Keycode::Apostrophe => Key::Apostrophe,
        Keycode::Comma => Key::Comma,
        Keycode::Dot => Key::Period,
        Keycode::Slash => Key::QuestionMark,
        _ => Key::Unknown,
    }
}

/// The system-wide input backend built on device_query's global key hooks.
pub struct GenericKeyBackend;

impl GenericKeyBackend {
    /// The event that a key-down callback delivers for a keycode.
    pub fn key_down_event(keycode: &Keycode) -> (r: AppEvent)
        ensures
            r == AppEvent::KeyEvent(KeyEventType::KeyPressed(keycode_key(*keycode))),
    {
        AppEvent::KeyEvent(KeyEventType::KeyPressed(map_keycode(keycode)))
    }

    /// The event that a key-up callback delivers for a keycode.
    pub fn key_up_event(keycode: &Keycode) -> (r: AppEvent)
        ensures
            r == AppEvent::KeyEvent(KeyEventType::KeyReleased(keycode_key(*keycode))),
    {
        AppEvent::KeyEvent(KeyEventType::KeyReleased(map_keycode(keycode)))
    }
}

/// The events that the two hooks deliver for one key going down and up leave
/// that key released, from any key states; an unmapped keycode gives `Unknown`.
pub proof fn lemma_down_then_up(m: Map<Key, KeyState>, keycode: Keycode)
    ensures
        replay(
            m,
            seq![
                AppEvent::KeyEvent(KeyEventType::KeyPressed(keycode_key(keycode))),
                AppEvent::KeyEvent(KeyEventType::KeyReleased(keycode_key(keycode))),
            ],
        ) == m.insert(keycode_key(keycode), KeyState::Released),
{
    lemma_press_then_release(m, keycode_key(keycode));
}

} // verus!
