use device_query_revamped::Keycode;
use kbt::generic_backend::{map_keycode, GenericKeyBackend};
use kbt::key::{Key, KEY_COUNT};
use kbt::linux::{names_active_window, x11_key_event};
use kbt::model::{App, AppEvent, KeyEventType, KeyState, KeyboardSize, Rows};

fn empty_app() -> App {
    App::new(KeyboardSize::Keyboard60, Rows { rows_60: vec![], rows_80: vec![], rows_100: vec![] })
}

#[test]
fn keycodes_map_to_keys() {
    assert_eq!(map_keycode(&Keycode::A), Key::A);
    assert_eq!(map_keycode(&Keycode::Key0), Key::Zero);
    assert_eq!(map_keycode(&Keycode::Escape), Key::Esc);
    assert_eq!(map_keycode(&Keycode::Enter), Key::Return);
    assert_eq!(map_keycode(&Keycode::LMeta), Key::LeftSuper);
    assert_eq!(map_keycode(&Keycode::Slash), Key::QuestionMark);
    assert_eq!(map_keycode(&Keycode::Equal), Key::Plus);
}

#[test]
fn unmapped_keycodes_are_unknown() {
    assert_eq!(map_keycode(&Keycode::Numpad0), Key::Unknown);
    assert_eq!(map_keycode(&Keycode::Print), Key::Unknown);
    assert_eq!(map_keycode(&Keycode::Numlock), Key::Unknown);
}

#[test]
fn hooks_deliver_press_and_release_events() {
    assert_eq!(
        GenericKeyBackend::key_down_event(&Keycode::A),
        AppEvent::KeyEvent(KeyEventType::KeyPressed(Key::A))
    );
    assert_eq!(
        GenericKeyBackend::key_up_event(&Keycode::Space),
        AppEvent::KeyEvent(KeyEventType::KeyReleased(Key::Spacebar))
    );
}

#[test]
fn down_then_up_through_hooks_leaves_key_released() {
    let mut app = empty_app();
    app.handle_event(GenericKeyBackend::key_down_event(&Keycode::A));
    app.handle_event(GenericKeyBackend::key_up_event(&Keycode::A));
    assert_eq!(app.key_state(Key::A), KeyState::Released);
    assert_eq!(app.touched_count(), 1);
}

#[test]
fn unmapped_code_is_tracked_as_unknown() {
    let mut app = empty_app();
    app.handle_event(GenericKeyBackend::key_down_event(&Keycode::NumpadEnter));
    app.handle_event(x11_key_event(false, 250));
    assert_eq!(app.key_state(Key::Unknown), KeyState::Released);
}

#[test]
fn x11_codes_map_to_keys() {
    assert_eq!(Key::from(9u8), Key::Esc);
    assert_eq!(Key::from(38u8), Key::A);
    assert_eq!(Key::from(36u8), Key::Return);
    assert_eq!(Key::from(65u8), Key::Spacebar);
    assert_eq!(Key::from(134u8), Key::RightSuper);
    assert_eq!(Key::from(63u8), Key::Unknown);
    assert_eq!(Key::from(0u8), Key::Unknown);
    assert_eq!(Key::from(255u8), Key::Unknown);
}

#[test]
fn x11_events_carry_direction() {
    assert_eq!(x11_key_event(true, 24), AppEvent::KeyEvent(KeyEventType::KeyPressed(Key::Q)));
    assert_eq!(x11_key_event(false, 24), AppEvent::KeyEvent(KeyEventType::KeyReleased(Key::Q)));
}

#[test]
fn active_window_property_needs_one_32_bit_value() {
    assert!(names_active_window(32, 1));
    assert!(!names_active_window(32, 0));
    assert!(!names_active_window(8, 1));
}

#[test]
fn key_labels() {
    assert_eq!(Key::A.label(), "A");
    assert_eq!(Key::LeftBracket.label(), "[{");
    assert_eq!(Key::RightBracket.label(), "]}");
    assert_eq!(Key::Backslash.label(), "|\\");
    assert_eq!(Key::Spacebar.label(), "Spacebar");
    assert_eq!(Key::Unknown.label(), "Unknown");
}

#[test]
fn key_indices_are_distinct() {
    let keys = [Key::Q, Key::M, Key::Zero, Key::F12, Key::Backspace, Key::Separator, Key::Unknown];
    for (i, a) in keys.iter().enumerate() {
        assert!(a.index() < KEY_COUNT);
        for b in keys.iter().skip(i + 1) {
            assert_ne!(a.index(), b.index());
        }
    }
    assert_eq!(Key::Unknown.index(), KEY_COUNT - 1);
}
