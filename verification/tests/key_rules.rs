use velobracket::chat::Line;
use velobracket::keys::{typed_char, Key, KeyPress, MoveDir, MOVE_LIMIT};
use velobracket::ui::{InputKind, Intent, Request, UiState};

fn press(key: Key) -> Option<KeyPress> {
    Some(KeyPress { key, code: 0 })
}

fn fresh() -> UiState<u32> {
    UiState::new()
}

fn typing(text: &str) -> UiState<u32> {
    let mut ui = fresh();
    ui.chat_input_enabled = true;
    ui.chat_input = text.to_string();
    ui
}

fn still() -> MoveDir {
    MoveDir { x: 0, y: 0 }
}

#[test]
fn a_session_starts_with_the_documented_state() {
    let ui = fresh();
    assert_eq!(ui.zoom_steps, 0);
    assert!(ui.chat_log.is_empty());
    assert_eq!(ui.chat_input, "");
    assert!(!ui.chat_input_enabled);
    assert!(!ui.inv_toggle);
    assert!(!ui.is_jump_active);
    assert!(!ui.is_secondary_active);
    assert!(!ui.is_primary_active);
    assert!(!ui.is_glide_active);
    assert_eq!(ui.invpos, 1);
    assert_eq!(ui.arrowed1, None);
    assert_eq!(ui.arrowed2, None);
    assert_eq!(ui.arrowed, None);
    assert_eq!(ui.use_slotid, None);
    assert_eq!(ui.arrowedpos, 0);
    assert!(!ui.swap);
    assert!(!ui.use_item);
}

#[test]
fn no_key_changes_nothing_and_wants_nothing() {
    let mut ui = fresh();
    let intent = ui.handle_key(None);
    assert_eq!(intent, Intent { dir: still(), request: None });
    assert_eq!(ui, fresh());
}

#[test]
fn straight_movement_keys_step_along_one_axis() {
    let cases = [
        (Key::Numpad8, 0, 1),
        (Key::W, 0, 1),
        (Key::Numpad4, -1, 0),
        (Key::A, -1, 0),
        (Key::Numpad2, 0, -1),
        (Key::Numpad5, 0, -1),
        (Key::S, 0, -1),
        (Key::Numpad6, 1, 0),
        (Key::D, 1, 0),
    ];
    for (key, x, y) in cases {
        let mut ui = fresh();
        let intent = ui.handle_key(press(key));
        assert_eq!(intent, Intent { dir: MoveDir { x, y }, request: None });
        assert_eq!(ui, fresh());
    }
}

#[test]
fn diagonal_movement_keys_step_along_both_axes() {
    let cases =
        [(Key::Numpad7, -1, 1), (Key::Numpad9, 1, 1), (Key::Numpad1, -1, -1), (Key::Numpad3, 1, -1)];
    for (key, x, y) in cases {
        let mut ui = fresh();
        let intent = ui.handle_key(press(key));
        assert_eq!(intent.dir, MoveDir { x, y });
        assert_eq!(intent.request, None);
    }
}

#[test]
fn up_and_left_in_one_tick_move_along_both_axes() {
    let dir = MoveDir::zero().accumulate(Key::W).accumulate(Key::A);
    assert_eq!(dir, MoveDir { x: -1, y: 1 });
    assert_eq!(dir, MoveDir::zero().accumulate(Key::Numpad7));
    let other_order = MoveDir::zero().accumulate(Key::A).accumulate(Key::W);
    assert_eq!(other_order, dir);
}

#[test]
fn the_direction_is_gone_in_the_next_tick() {
    let mut ui = fresh();
    let first = ui.handle_key(press(Key::Numpad7));
    assert_eq!(first.dir, MoveDir { x: -1, y: 1 });
    let second = ui.handle_key(None);
    assert_eq!(second.dir, still());
    let third = ui.handle_key(press(Key::D));
    assert_eq!(third.dir, MoveDir { x: 1, y: 0 });
}

#[test]
fn opposite_keys_cancel_and_other_keys_do_not_move() {
    assert_eq!(MoveDir::zero().accumulate(Key::W).accumulate(Key::S), still());
    assert_eq!(MoveDir::zero().accumulate(Key::Numpad9).accumulate(Key::Numpad1), still());
    for key in [Key::Return, Key::Back, Key::Up, Key::Down, Key::Space, Key::Plus, Key::Other] {
        assert_eq!(MoveDir::zero().accumulate(key), still());
    }
}

#[test]
fn an_axis_stops_where_single_precision_stops_counting() {
    let limit: f32 = MOVE_LIMIT as f32;
    assert_eq!(limit + 1.0, limit);
    assert_eq!(-limit - 1.0, -limit);
    assert_eq!((MOVE_LIMIT - 1) as f32 + 1.0, limit);
    let at_limit = MoveDir { x: MOVE_LIMIT, y: -MOVE_LIMIT };
    assert_eq!(at_limit.accumulate(Key::Numpad3), at_limit);
    assert_eq!(
        at_limit.accumulate(Key::Numpad7),
        MoveDir { x: MOVE_LIMIT - 1, y: -MOVE_LIMIT + 1 }
    );
    let near = MoveDir { x: MOVE_LIMIT - 1, y: 0 };
    assert_eq!(near.accumulate(Key::D), MoveDir { x: MOVE_LIMIT, y: 0 });
}

#[test]
fn the_cursor_moves_down_and_up() {
    let mut ui = fresh();
    ui.handle_key(press(Key::Down));
    assert_eq!(ui.invpos, 2);
    ui.handle_key(press(Key::Up));
    ui.handle_key(press(Key::Up));
    assert_eq!(ui.invpos, 0);
}

#[test]
fn the_cursor_wraps_at_both_ends() {
    let mut ui = fresh();
    ui.invpos = 0;
    ui.handle_key(press(Key::Up));
    assert_eq!(ui.invpos, u32::MAX);
    ui.handle_key(press(Key::Down));
    assert_eq!(ui.invpos, 0);
}

#[test]
fn the_slot_choice_goes_through_its_three_steps() {
    let mut ui = fresh();
    ui.arrowed = Some(7);
    ui.swap = true;
    let intent = ui.handle_key(press(Key::Right));
    assert_eq!(intent, Intent { dir: still(), request: None });
    assert_eq!((ui.arrowed1, ui.arrowed2, ui.arrowedpos, ui.swap), (Some(7), None, 1, false));
    ui.arrowed = Some(9);
    ui.handle_key(press(Key::Right));
    assert_eq!((ui.arrowed1, ui.arrowed2, ui.arrowedpos, ui.swap), (Some(7), Some(9), 2, false));
    ui.arrowed = Some(11);
    ui.handle_key(press(Key::Right));
    assert_eq!((ui.arrowed1, ui.arrowed2, ui.arrowedpos, ui.swap), (Some(7), Some(9), 2, true));
    ui.handle_key(press(Key::Right));
    assert_eq!((ui.arrowed1, ui.arrowed2, ui.arrowedpos, ui.swap), (Some(7), Some(9), 2, true));
}

#[test]
fn a_choice_counter_past_two_asks_for_the_swap() {
    let mut ui = fresh();
    ui.arrowedpos = 40;
    ui.handle_key(press(Key::Right));
    assert_eq!(ui.arrowedpos, 2);
    assert!(ui.swap);
}

#[test]
fn left_marks_the_slot_under_the_cursor_for_use() {
    let mut ui = fresh();
    ui.arrowed = Some(3);
    ui.handle_key(press(Key::Left));
    assert_eq!(ui.use_slotid, Some(3));
    assert!(ui.use_item);
    let mut none = fresh();
    none.handle_key(press(Key::Left));
    assert_eq!(none.use_slotid, None);
    assert!(none.use_item);
}

#[test]
fn invitations_are_accepted_and_declined() {
    let mut ui = fresh();
    assert_eq!(ui.handle_key(press(Key::U)).request, Some(Request::AcceptInvite));
    assert_eq!(ui.handle_key(press(Key::I)).request, Some(Request::DeclineInvite));
    assert_eq!(ui, fresh());
}

#[test]
fn the_inventory_panel_opens_and_closes() {
    let mut ui = fresh();
    assert_eq!(ui.handle_key(press(Key::T)).request, None);
    assert!(ui.inv_toggle);
    ui.handle_key(press(Key::T));
    assert!(!ui.inv_toggle);
}

#[test]
fn jump_is_held_on_the_first_press_and_let_go_on_the_second() {
    let mut ui = fresh();
    let first = ui.handle_key(press(Key::Space));
    assert_eq!(first.request, Some(Request::Hold { kind: InputKind::Jump, held: true }));
    assert!(ui.is_jump_active);
    let second = ui.handle_key(press(Key::Space));
    assert_eq!(second.request, Some(Request::Hold { kind: InputKind::Jump, held: false }));
    assert!(!ui.is_jump_active);
    assert_eq!(ui, fresh());
}

#[test]
fn the_attacks_are_held_and_let_go_each_by_its_own_key() {
    let mut ui = fresh();
    let primary = ui.handle_key(press(Key::X));
    assert_eq!(primary.request, Some(Request::Hold { kind: InputKind::Primary, held: true }));
    let secondary = ui.handle_key(press(Key::Z));
    assert_eq!(secondary.request, Some(Request::Hold { kind: InputKind::Secondary, held: true }));
    assert!(ui.is_primary_active && ui.is_secondary_active && !ui.is_jump_active);
    let primary = ui.handle_key(press(Key::X));
    assert_eq!(primary.request, Some(Request::Hold { kind: InputKind::Primary, held: false }));
    assert!(!ui.is_primary_active && ui.is_secondary_active);
}

#[test]
fn glide_is_toggled_and_respawn_is_asked_for() {
    let mut ui = fresh();
    assert_eq!(ui.handle_key(press(Key::G)).request, Some(Request::ToggleGlide));
    assert!(ui.is_glide_active);
    assert_eq!(ui.handle_key(press(Key::G)).request, Some(Request::ToggleGlide));
    assert!(!ui.is_glide_active);
    assert_eq!(ui.handle_key(press(Key::R)).request, Some(Request::Respawn));
    assert_eq!(ui, fresh());
}

#[test]
fn zooming_in_and_out_again_returns_to_the_start() {
    let mut ui = fresh();
    ui.handle_key(press(Key::Plus));
    assert_eq!(ui.zoom_steps, -1);
    assert_eq!(1.5f32.powi(ui.zoom_steps), 1.0 / 1.5);
    ui.handle_key(press(Key::Minus));
    assert_eq!(ui.zoom_steps, 0);
    assert_eq!(1.5f32.powi(ui.zoom_steps), 1.0);
    assert_eq!(ui, fresh());
}

#[test]
fn zooming_out_shows_one_and_a_half_times_as_much() {
    let mut ui = fresh();
    ui.handle_key(press(Key::Minus));
    assert_eq!(ui.zoom_steps, 1);
    assert_eq!(1.5f32.powi(ui.zoom_steps), 1.0 * 1.5);
    ui.handle_key(press(Key::Minus));
    assert_eq!(ui.zoom_steps, 2);
    assert_eq!(1.5f32.powi(ui.zoom_steps), 1.0 * 1.5 * 1.5);
}

#[test]
fn the_zoom_stops_at_the_ends_of_its_count() {
    let mut ui = fresh();
    ui.zoom_steps = i32::MIN;
    ui.handle_key(press(Key::Plus));
    assert_eq!(ui.zoom_steps, i32::MIN);
    ui.zoom_steps = i32::MAX;
    ui.handle_key(press(Key::Minus));
    assert_eq!(ui.zoom_steps, i32::MAX);
}

#[test]
fn keys_without_a_meaning_do_nothing() {
    for key in [Key::Return, Key::Back, Key::Other] {
        let mut ui = fresh();
        ui.arrowed = Some(1);
        let before = ui.clone();
        let intent = ui.handle_key(Some(KeyPress { key, code: 12 }));
        assert_eq!(intent, Intent { dir: still(), request: None });
        assert_eq!(ui, before);
    }
}

#[test]
fn a_key_adds_the_last_digit_of_its_code() {
    assert_eq!(typed_char(12), '2');
    assert_eq!(typed_char(0), '0');
    assert_eq!(typed_char(9), '9');
    assert_eq!(typed_char(10), '0');
    assert_eq!(typed_char(163), '3');
    assert_eq!(typed_char(-47), '7');
    assert_eq!(typed_char(i32::MAX), '7');
    assert_eq!(typed_char(i32::MIN), '8');
}

#[test]
fn the_typed_digit_is_the_end_of_the_decimal_form() {
    for code in (-2000..2000).chain([i32::MIN, i32::MIN + 1, i32::MAX - 1, i32::MAX]) {
        let expected = format!("{}", code).pop();
        assert_eq!(Some(typed_char(code)), expected);
    }
}

#[test]
fn typing_adds_to_the_line_and_moves_nobody() {
    let mut ui = typing("ab");
    let intent = ui.handle_key(Some(KeyPress { key: Key::W, code: 32 }));
    assert_eq!(intent, Intent { dir: still(), request: None });
    assert_eq!(ui.chat_input, "ab2");
    assert!(ui.chat_input_enabled);
    ui.handle_key(Some(KeyPress { key: Key::Other, code: 12 }));
    ui.handle_key(Some(KeyPress { key: Key::Space, code: 76 }));
    assert_eq!(ui.chat_input, "ab226");
    assert!(!ui.is_jump_active);
}

#[test]
fn back_takes_the_last_character_away() {
    let mut ui = typing("añ☺");
    let intent = ui.handle_key(press(Key::Back));
    assert_eq!(intent, Intent { dir: still(), request: None });
    assert_eq!(ui.chat_input, "añ");
    ui.handle_key(press(Key::Back));
    ui.handle_key(press(Key::Back));
    assert_eq!(ui.chat_input, "");
    ui.handle_key(press(Key::Back));
    assert_eq!(ui.chat_input, "");
    assert!(ui.chat_input_enabled);
}

#[test]
fn return_sends_a_message_and_ends_typing() {
    let mut ui = typing("hello there");
    let intent = ui.handle_key(press(Key::Return));
    assert_eq!(intent.dir, still());
    assert_eq!(intent.request, Some(Request::Send(Line::Chat("hello there".to_string()))));
    assert_eq!(ui.chat_input, "");
    assert!(!ui.chat_input_enabled);
}

#[test]
fn return_sends_a_command_when_the_line_starts_with_a_slash() {
    let mut ui = typing("/tp  alice   10");
    let intent = ui.handle_key(press(Key::Return));
    let expected = Line::Command {
        name: "/tp".to_string(),
        args: vec!["/tp".to_string(), "alice".to_string(), "10".to_string()],
    };
    assert_eq!(intent.request, Some(Request::Send(expected)));
    assert_eq!(ui.chat_input, "");
    assert!(!ui.chat_input_enabled);
}

#[test]
fn return_on_an_empty_line_sends_nothing_and_ends_typing() {
    let mut ui = typing("");
    let intent = ui.handle_key(press(Key::Return));
    assert_eq!(intent, Intent { dir: still(), request: None });
    assert_eq!(ui.chat_input, "");
    assert!(!ui.chat_input_enabled);
}

#[test]
fn typing_leaves_the_rest_of_the_state_alone() {
    let mut ui = typing("x");
    ui.invpos = 5;
    ui.zoom_steps = 3;
    ui.arrowed = Some(4);
    ui.chat_log.push("kept".to_string());
    let mut expected = ui.clone();
    for key in [Key::Down, Key::Plus, Key::Right, Key::Left, Key::T, Key::G, Key::X, Key::U] {
        let intent = ui.handle_key(Some(KeyPress { key, code: 101 }));
        assert_eq!(intent, Intent { dir: still(), request: None });
        expected.chat_input.push('1');
        assert_eq!(ui, expected);
    }
}
