use kbt::key::Key;
use kbt::layout::{
    calc_row_width, calc_static_row_len, centering_offset, check_if_fits, place_rows,
    prepare_layout, rows_in_bounds, CellRect, KeyBorders, SizeCheckResult,
};
use kbt::model::{App, KeySize, KeyUI, KeyboardSize, Rows, VerticalKeyPart};

fn cell(key: Key, size: KeySize) -> KeyUI {
    KeyUI { key, size, size_correction: None, vertical_key_part: None }
}

fn corrected(key: Key, size: KeySize, correction: i16) -> KeyUI {
    KeyUI { key, size, size_correction: Some(correction), vertical_key_part: None }
}

fn function_row_80() -> Vec<KeyUI> {
    vec![
        cell(Key::Esc, KeySize::U1),
        corrected(Key::Separator, KeySize::U1, -1),
        cell(Key::F1, KeySize::U1),
        cell(Key::F2, KeySize::U1),
        cell(Key::F3, KeySize::U1),
        cell(Key::F4, KeySize::U1),
        corrected(Key::Separator, KeySize::U05, 1),
        cell(Key::F5, KeySize::U1),
        cell(Key::F6, KeySize::U1),
        cell(Key::F7, KeySize::U1),
        cell(Key::F8, KeySize::U1),
        corrected(Key::Separator, KeySize::U05, 1),
        cell(Key::F9, KeySize::U1),
        cell(Key::F10, KeySize::U1),
        cell(Key::F11, KeySize::U1),
        cell(Key::F12, KeySize::U1),
        cell(Key::Separator, KeySize::U05),
        cell(Key::PrintScreen, KeySize::U1),
        cell(Key::ScrollLock, KeySize::U1),
        cell(Key::PauseBreak, KeySize::U1),
    ]
}

fn bottom_row_80() -> Vec<KeyUI> {
    vec![
        cell(Key::LeftCtrl, KeySize::U15),
        cell(Key::LeftSuper, KeySize::U1),
        cell(Key::LeftAlt, KeySize::U15),
        corrected(Key::Spacebar, KeySize::U675, 3),
        cell(Key::RightAlt, KeySize::U15),
        cell(Key::RightSuper, KeySize::U1),
        cell(Key::RightCtrl, KeySize::U15),
        cell(Key::Separator, KeySize::U05),
        cell(Key::ArrowLeft, KeySize::U1),
        cell(Key::ArrowDown, KeySize::U1),
        cell(Key::ArrowRight, KeySize::U1),
    ]
}

fn shift_row_80() -> Vec<KeyUI> {
    vec![
        cell(Key::LeftShift, KeySize::U225),
        cell(Key::Z, KeySize::U1),
        cell(Key::X, KeySize::U1),
        cell(Key::C, KeySize::U1),
        cell(Key::V, KeySize::U1),
        cell(Key::B, KeySize::U1),
        cell(Key::N, KeySize::U1),
        cell(Key::M, KeySize::U1),
        cell(Key::Comma, KeySize::U1),
        cell(Key::Period, KeySize::U1),
        cell(Key::QuestionMark, KeySize::U1),
        cell(Key::RightShift, KeySize::U275),
        cell(Key::Separator, KeySize::U05),
        cell(Key::Separator, KeySize::U1),
        cell(Key::ArrowUp, KeySize::U1),
    ]
}

#[test]
fn static_len_follows_unit_table() {
    assert_eq!(KeySize::U05.static_len(), 2);
    assert_eq!(KeySize::U1.static_len(), 5);
    assert_eq!(KeySize::U15.static_len(), 7);
    assert_eq!(KeySize::U175.static_len(), 8);
    assert_eq!(KeySize::U2.static_len(), 10);
    assert_eq!(KeySize::U225.static_len(), 11);
    assert_eq!(KeySize::U250.static_len(), 12);
    assert_eq!(KeySize::U275.static_len(), 14);
    assert_eq!(KeySize::U4.static_len(), 20);
    assert_eq!(KeySize::U675.static_len(), 34);
}

#[test]
fn function_row_width_matches_cell_sum() {
    // Esc 5, gap 5-1, F1..F4 4*5, gap 2+1, F5..F8 4*5, gap 2+1, F9..F12 4*5, gap 2, three keys 3*5
    let expected: u16 = 5 + 4 + 20 + 3 + 20 + 3 + 20 + 2 + 15;
    assert_eq!(expected, 92);
    assert_eq!(calc_row_width(&function_row_80()), expected);
    assert_eq!(calc_static_row_len(&function_row_80()), expected);
}

#[test]
fn bottom_row_width_counts_space_correction() {
    // 7 + 5 + 7 + (34 + 3) + 7 + 5 + 7 + 2 + 3 * 5
    assert_eq!(calc_row_width(&bottom_row_80()), 92);
}

#[test]
fn reordered_row_has_same_width() {
    let mut row = function_row_80();
    row.reverse();
    assert_eq!(calc_row_width(&row), 92);
}

#[test]
fn empty_row_has_no_width() {
    assert_eq!(calc_row_width(&[]), 0);
    assert_eq!(calc_static_row_len(&[]), 0);
}

#[test]
fn negative_key_width_is_drawn_as_zero() {
    let row = vec![cell(Key::A, KeySize::U2), corrected(Key::Separator, KeySize::U05, -4)];
    assert_eq!(row[1].cell_width(), 0);
    assert_eq!(calc_row_width(&row), 8);
    assert_eq!(calc_static_row_len(&row), 10);
}

#[test]
fn cell_width_adds_correction() {
    assert_eq!(corrected(Key::Spacebar, KeySize::U675, 3).cell_width(), 37);
    assert_eq!(cell(Key::Tab, KeySize::U15).cell_width(), 7);
}

#[test]
fn layout_takes_widest_row_and_row_count() {
    let layout = prepare_layout(vec![shift_row_80(), function_row_80(), bottom_row_80()]);
    assert_eq!(calc_row_width(&shift_row_80()), 87);
    assert_eq!(layout.width, 92);
    assert_eq!(layout.height, 9);
    assert_eq!(layout.rows_count, 3);
    assert_eq!(layout.rows.len(), 3);
    assert_eq!(layout.rows[0].width, 87);
    assert_eq!(layout.rows[1].width, 92);
    assert_eq!(layout.rows[2].keys.len(), 11);
}

#[test]
fn empty_layout_has_no_size() {
    let layout = prepare_layout(vec![]);
    assert_eq!(layout.width, 0);
    assert_eq!(layout.height, 0);
    assert_eq!(layout.rows_count, 0);
}

#[test]
fn rows_in_bounds_rejects_oversized_tables() {
    assert!(rows_in_bounds(&vec![function_row_80(), bottom_row_80()]));
    let wide: Vec<KeyUI> = (0..2000).map(|_| cell(Key::Spacebar, KeySize::U675)).collect();
    assert!(!rows_in_bounds(&vec![wide]));
    let negative = vec![corrected(Key::A, KeySize::U1, -10)];
    assert!(!rows_in_bounds(&vec![negative]));
    let tall: Vec<Vec<KeyUI>> = (0..21846).map(|_| vec![]).collect();
    assert!(!rows_in_bounds(&tall));
    let tallest: Vec<Vec<KeyUI>> = (0..21845).map(|_| vec![]).collect();
    assert!(rows_in_bounds(&tallest));
}

fn app_80() -> App {
    App::new(
        KeyboardSize::Keyboard80,
        Rows {
            rows_60: vec![],
            rows_80: vec![
                function_row_80(),
                vec![cell(Key::A, KeySize::U1)],
                vec![cell(Key::B, KeySize::U1)],
                vec![cell(Key::C, KeySize::U1)],
                vec![cell(Key::D, KeySize::U1)],
                bottom_row_80(),
            ],
            rows_100: vec![],
        },
    )
}

#[test]
fn fit_check_is_strict() {
    let app = app_80();
    assert_eq!(app.layout().width, 92);
    assert_eq!(app.layout().height, 18);
    assert_eq!(check_if_fits(92, 18, &app), SizeCheckResult::TooSmall);
    assert_eq!(check_if_fits(92, 100, &app), SizeCheckResult::TooSmall);
    assert_eq!(check_if_fits(200, 18, &app), SizeCheckResult::TooSmall);
    assert_eq!(check_if_fits(93, 19, &app), SizeCheckResult::Fits);
    assert_eq!(check_if_fits(0, 0, &app), SizeCheckResult::TooSmall);
}

#[test]
fn centering_offset_floors() {
    assert_eq!(centering_offset(100, 93), 3);
    assert_eq!(centering_offset(101, 93), 4);
    assert_eq!(centering_offset(93, 93), 0);
    assert_eq!(centering_offset(u16::MAX, 0), 32767);
}

#[test]
fn place_rows_centres_each_row() {
    let app = app_80();
    assert_eq!(place_rows(app.layout(), 92, 40), None);
    assert_eq!(place_rows(app.layout(), 100, 18), None);
    let rects = place_rows(app.layout(), 100, 30).unwrap();
    assert_eq!(rects.len(), 6);
    assert_eq!(rects[0], CellRect { x: 4, y: 6, width: 92, height: 3 });
    assert_eq!(rects[1], CellRect { x: 4, y: 9, width: 5, height: 3 });
    assert_eq!(rects[5], CellRect { x: 4, y: 21, width: 92, height: 3 });
}

#[test]
fn borders_follow_key_kind() {
    assert_eq!(cell(Key::Separator, KeySize::U05).borders(), KeyBorders::Nothing);
    assert_eq!(cell(Key::A, KeySize::U1).borders(), KeyBorders::All);
    let top = KeyUI {
        key: Key::Return,
        size: KeySize::U1,
        size_correction: None,
        vertical_key_part: Some(VerticalKeyPart::TOP),
    };
    let bottom = KeyUI { vertical_key_part: Some(VerticalKeyPart::BOTTOM), ..top };
    assert_eq!(top.borders(), KeyBorders::OpenBelow);
    assert_eq!(bottom.borders(), KeyBorders::OpenAbove);
    assert_eq!(top.caption(), "Return");
    assert_eq!(bottom.caption(), "");
}
