use solito::mouse::MouseMode;
use solito::ui::pointer::{report_bytes, MouseReport, MouseTracker};
use solito::ui::copy::CopyModeMove;
use solito::ui::input::{
    control_character, copy_mode_command, handle_key, shortcut_command, AppCommand,
    CopyModeCommand, Key, KeyState, Modifiers, NamedKey,
};
use solito::ui::session::{clamp_pty_size, SessionInput, INITIAL_CURSOR_REPORT};
use solito::size::TerminalSize;

fn character(text: &str) -> Key {
    Key::Character(text.to_string())
}

fn control() -> Modifiers {
    Modifiers { control: true, ..Modifiers::empty() }
}

fn shift() -> Modifiers {
    Modifiers { shift: true, ..Modifiers::empty() }
}

fn control_shift() -> Modifiers {
    Modifiers { control: true, shift: true, ..Modifiers::empty() }
}

#[test]
fn enter_becomes_terminal_input() {
    let command = handle_key(
        None,
        &Key::Named(NamedKey::Enter),
        KeyState::Pressed,
        Modifiers::empty(),
        false,
    );

    assert_eq!(command, AppCommand::SendTerminalInput(b"\r".to_vec()));
}

#[test]
fn text_becomes_utf8_terminal_input() {
    let command = handle_key(
        Some("あ".to_string()),
        &character("あ"),
        KeyState::Pressed,
        Modifiers::empty(),
        false,
    );

    assert_eq!(
        command,
        AppCommand::SendTerminalInput("あ".as_bytes().to_vec())
    );
}

#[test]
fn ctrl_c_becomes_interrupt_byte() {
    let command = handle_key(None, &character("c"), KeyState::Pressed, control(), false);

    assert_eq!(command, AppCommand::SendTerminalInput(b"\x03".to_vec()));
}

#[test]
fn ctrl_e_becomes_end_of_line_byte() {
    let command = handle_key(None, &character("e"), KeyState::Pressed, control(), false);

    assert_eq!(command, AppCommand::SendTerminalInput(b"\x05".to_vec()));
}

#[test]
fn released_key_is_ignored() {
    let command = handle_key(
        Some("a".to_string()),
        &character("a"),
        KeyState::Released,
        Modifiers::empty(),
        false,
    );

    assert_eq!(command, AppCommand::Noop);
}

#[test]
fn ctrl_shift_t_opens_new_tab() {
    let command = shortcut_command(&character("T"), control_shift());

    assert!(matches!(command, Some(AppCommand::NewTab)));
}

#[test]
fn ctrl_shift_w_closes_active_tab() {
    let command = shortcut_command(&character("W"), control_shift());

    assert!(matches!(command, Some(AppCommand::CloseTab)));
}

#[test]
fn ctrl_tab_switch_next_tab() {
    let command = shortcut_command(&Key::Named(NamedKey::Tab), control());

    assert!(matches!(command, Some(AppCommand::NextTab)));
}

#[test]
fn ctrl_tab_switch_previous_tab() {
    let command = shortcut_command(&Key::Named(NamedKey::Tab), control_shift());

    assert!(matches!(command, Some(AppCommand::PreviousTab)));
}

#[test]
fn ctrl_shift_q_enters_copy_mode() {
    let command = shortcut_command(&character("Q"), control_shift());

    assert!(matches!(command, Some(AppCommand::EnterCopyMode)));
}

#[test]
fn ctrl_v_pastes_from_clipboard() {
    let command = shortcut_command(&character("v"), control());

    assert!(matches!(command, Some(AppCommand::PasteFromClipboard)));
}

#[test]
fn ctrl_shift_v_pastes_from_clipboard() {
    let command = shortcut_command(&character("V"), control_shift());

    assert!(matches!(command, Some(AppCommand::PasteFromClipboard)));
}

#[test]
fn ctrl_shift_c_copies_selection() {
    let command = shortcut_command(&character("C"), control_shift());

    assert!(matches!(command, Some(AppCommand::CopySelection)));
}

#[test]
fn copy_mode_y_copies_and_exits() {
    let command = copy_mode_command(&character("y"), Modifiers::empty());

    assert!(matches!(command, Some(CopyModeCommand::CopyAndExit)));
}

#[test]
fn copy_mode_ctrl_c_copies_and_exits() {
    let command = copy_mode_command(&character("c"), control());

    assert!(matches!(command, Some(CopyModeCommand::CopyAndExit)));
}

#[test]
fn copy_mode_v_toggles_cell_selection() {
    let command = copy_mode_command(&character("v"), Modifiers::empty());

    assert!(matches!(command, Some(CopyModeCommand::ToggleCellSelection)));
}

#[test]
fn copy_mode_shift_v_toggles_line_selection() {
    let command = copy_mode_command(&character("V"), shift());

    assert!(matches!(command, Some(CopyModeCommand::ToggleLineSelection)));
}

#[test]
fn copy_mode_h_moves_left() {
    let command = copy_mode_command(&character("h"), Modifiers::empty());

    assert!(matches!(command, Some(CopyModeCommand::Move(CopyModeMove::Left))));
}

#[test]
fn copy_mode_word_keys_move_by_words() {
    assert!(matches!(
        copy_mode_command(&character("w"), Modifiers::empty()),
        Some(CopyModeCommand::Move(CopyModeMove::NextWord))
    ));
    assert!(matches!(
        copy_mode_command(&character("b"), Modifiers::empty()),
        Some(CopyModeCommand::Move(CopyModeMove::PreviousWord))
    ));
    assert!(matches!(
        copy_mode_command(&character("e"), Modifiers::empty()),
        Some(CopyModeCommand::Move(CopyModeMove::WordEnd))
    ));
}

#[test]
fn copy_mode_line_edge_keys_move_to_line_edges() {
    assert!(matches!(
        copy_mode_command(&character("0"), Modifiers::empty()),
        Some(CopyModeCommand::Move(CopyModeMove::StartOfLine))
    ));
    assert!(matches!(
        copy_mode_command(&character("$"), shift()),
        Some(CopyModeCommand::Move(CopyModeMove::EndOfLine))
    ));
}

#[test]
fn copy_mode_keys_and_unbound_keys() {
    assert_eq!(copy_mode_command(&character("g"), shift()), Some(CopyModeCommand::Move(CopyModeMove::FirstLine)));
    assert_eq!(copy_mode_command(&character("G"), shift()), Some(CopyModeCommand::Move(CopyModeMove::LastLine)));
    assert_eq!(copy_mode_command(&character("G"), Modifiers::empty()), None);
    assert_eq!(copy_mode_command(&character("V"), Modifiers::empty()), None);
    assert_eq!(copy_mode_command(&Key::Named(NamedKey::Escape), Modifiers::empty()), Some(CopyModeCommand::Exit));
    assert_eq!(copy_mode_command(&character("Q"), Modifiers::empty()), Some(CopyModeCommand::Exit));
    assert_eq!(copy_mode_command(&Key::Unidentified, Modifiers::empty()), None);
    assert_eq!(
        handle_key(None, &character("j"), KeyState::Pressed, Modifiers::empty(), true),
        AppCommand::CopyMode(CopyModeCommand::Move(CopyModeMove::Down))
    );
    assert_eq!(
        handle_key(Some("z".to_string()), &character("z"), KeyState::Pressed, Modifiers::empty(), true),
        AppCommand::Noop
    );
}

#[test]
fn keys_without_bytes_and_control_characters() {
    assert_eq!(control_character("a"), Some(1));
    assert_eq!(control_character("Z"), Some(26));
    assert_eq!(control_character("1"), None);
    assert_eq!(control_character("ab"), None);
    assert_eq!(
        handle_key(None, &character("1"), KeyState::Pressed, control(), false),
        AppCommand::Noop
    );
    assert_eq!(
        handle_key(None, &Key::Named(NamedKey::Home), KeyState::Pressed, Modifiers::empty(), false),
        AppCommand::Noop
    );
    assert_eq!(
        handle_key(None, &Key::Named(NamedKey::ArrowLeft), KeyState::Pressed, Modifiers::empty(), false),
        AppCommand::SendTerminalInput(b"\x1b[D".to_vec())
    );
    assert_eq!(shortcut_command(&character("t"), control()), None);
    assert_eq!(shortcut_command(&character("t"), Modifiers::empty()), None);
    let bits = Modifiers { shift: true, alt: true, control: true, logo: false }.mouse_bits();
    assert_eq!(bits, 28);
}

#[test]
fn pty_size_stays_within_valid_range() {
    assert_eq!(clamp_pty_size(0), 1);
    assert_eq!(clamp_pty_size(80), 80);
    assert_eq!(clamp_pty_size(usize::MAX), u16::MAX);
}

#[test]
fn session_inputs_and_the_first_report() {
    assert_eq!(&INITIAL_CURSOR_REPORT, b"\x1b[1;1R");
    assert!(matches!(SessionInput::write(vec![1, 2]), SessionInput::Write(bytes) if bytes == vec![1, 2]));
    assert!(matches!(
        SessionInput::resize(TerminalSize::new(80, 24)),
        SessionInput::Resize(size) if size == TerminalSize::new(80, 24)
    ));
    assert_eq!(clamp_pty_size(70000), u16::MAX);
}

#[test]
fn mouse_reports_follow_held_buttons_and_context() {
    let drag = MouseMode { tracking: 1002, sgr: true };
    let mut tracker = MouseTracker::new();
    let (mode, reset) = tracker.mouse_mode(0, drag, false);
    assert_eq!(mode, drag);
    assert!(reset);
    assert_eq!(tracker.mouse_mode(0, drag, false), (drag, false));
    assert_eq!(tracker.mouse_mode(0, drag, true), (MouseMode { tracking: 0, sgr: false }, true));
    let _ = tracker.mouse_mode(0, drag, false);

    assert_eq!(
        tracker.button(drag, 0, false, Some((4, 2))),
        Some(MouseReport { code: 0, released: false, col: 4, row: 2 })
    );
    assert_eq!(
        tracker.motion(Some((5, 2))),
        Some(MouseReport { code: 32, released: false, col: 5, row: 2 })
    );
    assert_eq!(tracker.motion(Some((5, 2))), None);
    assert_eq!(
        tracker.button(drag, 0, true, None),
        Some(MouseReport { code: 0, released: true, col: 5, row: 2 })
    );
    assert_eq!(tracker.button(drag, 0, true, Some((1, 1))), None);
    assert_eq!(
        tracker.motion(Some((6, 2))),
        Some(MouseReport { code: 35, released: false, col: 6, row: 2 })
    );

    let report = MouseReport { code: 0, released: false, col: 249, row: 4 };
    assert_eq!(report_bytes(drag, report, Modifiers::empty()).unwrap(), b"\x1b[<0;250;5M");
    assert_eq!(report_bytes(drag, report, control()).unwrap(), b"\x1b[<16;250;5M");
}
