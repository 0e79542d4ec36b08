use kbt::key::Key;
use kbt::layout::KEY_HEIGHT;
use kbt::model::{
    App, AppEvent, ControlEventType, KeyEventType, KeySize, KeyState, KeyUI, KeyboardSize,
    LoopControl, Rows,
};

fn cell(key: Key, size: KeySize) -> KeyUI {
    KeyUI { key, size, size_correction: None, vertical_key_part: None }
}

fn small_rows() -> Rows {
    Rows {
        rows_60: vec![vec![cell(Key::A, KeySize::U1), cell(Key::B, KeySize::U2)]],
        rows_80: vec![
            vec![cell(Key::Esc, KeySize::U1)],
            vec![cell(Key::Spacebar, KeySize::U675)],
        ],
        rows_100: vec![],
    }
}

fn new_app() -> App {
    App::new(KeyboardSize::Keyboard80, small_rows())
}

fn press(k: Key) -> AppEvent {
    AppEvent::KeyEvent(KeyEventType::KeyPressed(k))
}

fn release(k: Key) -> AppEvent {
    AppEvent::KeyEvent(KeyEventType::KeyReleased(k))
}

#[test]
fn release_on_empty_state_is_ignored() {
    let mut app = new_app();
    assert_eq!(app.handle_event(release(Key::A)), LoopControl::Continue);
    assert_eq!(app.key_state(Key::A), KeyState::Untouched);
    assert_eq!(app.touched_count(), 0);
}

#[test]
fn press_then_release_leaves_key_released() {
    let mut app = new_app();
    app.handle_event(press(Key::A));
    assert_eq!(app.key_state(Key::A), KeyState::Pressed);
    app.handle_event(release(Key::A));
    assert_eq!(app.key_state(Key::A), KeyState::Released);
    assert_eq!(app.touched_count(), 1);
}

#[test]
fn second_release_is_ignored() {
    let mut app = new_app();
    app.handle_event(press(Key::A));
    app.handle_event(release(Key::A));
    app.handle_event(release(Key::A));
    assert_eq!(app.key_state(Key::A), KeyState::Released);
}

#[test]
fn release_of_another_key_is_ignored() {
    let mut app = new_app();
    app.handle_event(press(Key::A));
    app.handle_event(release(Key::B));
    assert_eq!(app.key_state(Key::A), KeyState::Pressed);
    assert_eq!(app.key_state(Key::B), KeyState::Untouched);
}

#[test]
fn press_after_release_presses_again() {
    let mut app = new_app();
    app.handle_event(press(Key::Q));
    app.handle_event(release(Key::Q));
    app.handle_event(press(Key::Q));
    assert_eq!(app.key_state(Key::Q), KeyState::Pressed);
}

#[test]
fn reset_forgets_every_key() {
    let mut app = new_app();
    app.handle_event(press(Key::A));
    app.handle_event(press(Key::B));
    app.handle_event(release(Key::B));
    app.handle_event(press(Key::Unknown));
    assert_eq!(app.touched_count(), 3);
    let r = app.handle_event(AppEvent::ControlEvent(ControlEventType::Reset));
    assert_eq!(r, LoopControl::Continue);
    assert_eq!(app.touched_count(), 0);
    assert_eq!(app.key_state(Key::A), KeyState::Untouched);
    assert_eq!(app.key_state(Key::B), KeyState::Untouched);
    assert_eq!(app.key_state(Key::Unknown), KeyState::Untouched);
}

#[test]
fn reset_on_empty_state_stays_empty() {
    let mut app = new_app();
    app.reset();
    assert_eq!(app.touched_count(), 0);
}

#[test]
fn release_after_reset_is_ignored() {
    let mut app = new_app();
    app.handle_event(press(Key::A));
    app.handle_event(AppEvent::ControlEvent(ControlEventType::Reset));
    app.handle_event(release(Key::A));
    assert_eq!(app.key_state(Key::A), KeyState::Untouched);
}

#[test]
fn terminate_stops_the_loop_and_keeps_state() {
    let mut app = new_app();
    app.handle_event(press(Key::Tab));
    let r = app.handle_event(AppEvent::ControlEvent(ControlEventType::Terminate));
    assert_eq!(r, LoopControl::Exit);
    assert_eq!(app.key_state(Key::Tab), KeyState::Pressed);
}

#[test]
fn resize_keeps_state_and_layout() {
    let mut app = new_app();
    app.handle_event(press(Key::Tab));
    let r = app.handle_event(AppEvent::ScreenResize);
    assert_eq!(r, LoopControl::Continue);
    assert_eq!(app.key_state(Key::Tab), KeyState::Pressed);
    assert_eq!(app.keyboard_size, KeyboardSize::Keyboard80);
    assert_eq!(app.layout().width, 34);
    assert_eq!(app.layout().height, 2 * KEY_HEIGHT);
}

#[test]
fn new_prepares_every_layout() {
    let app = App::new(KeyboardSize::Keyboard60, small_rows());
    assert_eq!(app.layouts.layout_60.width, 15);
    assert_eq!(app.layouts.layout_60.height, 3);
    assert_eq!(app.layouts.layout_60.rows_count, 1);
    assert_eq!(app.layouts.layout_80.width, 34);
    assert_eq!(app.layouts.layout_80.rows_count, 2);
    assert_eq!(app.layouts.layout_100.width, 0);
    assert_eq!(app.layouts.layout_100.height, 0);
    assert_eq!(app.layout().width, 15);
    assert_eq!(app.touched_count(), 0);
}
