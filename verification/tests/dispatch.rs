use solito::screen::cell::{ScreenCell, ScreenSnapshot};
use solito::size::TerminalSize;
use solito::ui::copy::{CopyMode, CopyModeMove};
use solito::ui::dispatch::{handle_command, window_title, AppAction};
use solito::ui::input::{AppCommand, CopyModeCommand};
use solito::ui::tabs::Tabs;
use solito::view::copy_mode::{CopyModePosition, CopyModeSnapshot};

fn screen(lines: &[&str], cursor_row: usize, cursor_col: usize) -> ScreenSnapshot {
    ScreenSnapshot {
        lines: lines
            .iter()
            .map(|line| {
                line.chars()
                    .map(|ch| {
                        let mut cell = ScreenCell::default();
                        cell.ch = ch;
                        cell
                    })
                    .collect()
            })
            .collect(),
        cursor_row,
        cursor_col,
        ..ScreenSnapshot::default()
    }
}

fn tabs(count: usize) -> Tabs<u8> {
    let mut tabs = Tabs::new();
    for i in 0..count {
        tabs.push(i as u8);
    }
    tabs
}

#[test]
fn window_title_names_copy_mode() {
    assert_eq!(window_title(false), "Solito");
    assert_eq!(window_title(true), "Solito - Copy Mode");
}

#[test]
fn entering_copy_mode_shows_the_cursor_and_retitles_the_window() {
    let screen = screen(&["abc", "def"], 1, 2);
    let mut tabs = tabs(1);
    let mut copy_mode = CopyMode::default();
    let view = Some(TerminalSize::new(80, 24));

    let actions = handle_command(&mut tabs, &mut copy_mode, Some(&screen), view, AppCommand::EnterCopyMode);

    let shown = CopyModeSnapshot {
        active: true,
        cursor: CopyModePosition::new(1, 2),
        selection: None,
    };
    assert_eq!(
        actions,
        vec![AppAction::ShowCopyMode(shown), AppAction::UpdateWindowTitle { copy_mode_active: true }]
    );
    assert!(copy_mode.is_active());
}

#[test]
fn entering_copy_mode_without_a_tab_does_nothing() {
    let mut tabs = tabs(0);
    let mut copy_mode = CopyMode::default();

    let actions = handle_command(&mut tabs, &mut copy_mode, None, None, AppCommand::EnterCopyMode);

    assert!(actions.is_empty());
    assert!(!copy_mode.is_active());
}

#[test]
fn copy_and_exit_copies_then_leaves_copy_mode() {
    let screen = screen(&["abc", "def"], 0, 0);
    let mut tabs = tabs(1);
    let mut copy_mode = CopyMode::default();
    copy_mode.enter(&screen);
    copy_mode.toggle_cell_selection();
    copy_mode.move_cursor(&screen, CopyModeMove::Right);

    let actions = handle_command(
        &mut tabs,
        &mut copy_mode,
        Some(&screen),
        Some(TerminalSize::new(80, 24)),
        AppCommand::CopyMode(CopyModeCommand::CopyAndExit),
    );

    assert_eq!(
        actions,
        vec![
            AppAction::CopyToClipboard("ab".to_string()),
            AppAction::ShowCopyMode(CopyModeSnapshot::inactive()),
            AppAction::UpdateWindowTitle { copy_mode_active: false },
        ]
    );
    assert!(!copy_mode.is_active());
}

#[test]
fn copy_mode_motion_refreshes_the_view() {
    let screen = screen(&["abc", "def"], 0, 0);
    let mut tabs = tabs(1);
    let mut copy_mode = CopyMode::default();
    copy_mode.enter(&screen);

    let actions = handle_command(
        &mut tabs,
        &mut copy_mode,
        Some(&screen),
        Some(TerminalSize::new(80, 24)),
        AppCommand::CopyMode(CopyModeCommand::Move(CopyModeMove::Down)),
    );

    let shown = CopyModeSnapshot {
        active: true,
        cursor: CopyModePosition::new(1, 0),
        selection: None,
    };
    assert_eq!(actions, vec![AppAction::ShowCopyMode(shown)]);
    assert_eq!(copy_mode.snapshot(), shown);
}

#[test]
fn closing_the_last_tab_exits() {
    let mut tabs = tabs(1);
    let mut copy_mode = CopyMode::default();

    let actions = handle_command(&mut tabs, &mut copy_mode, None, None, AppCommand::CloseTab);

    assert_eq!(actions, vec![AppAction::Exit]);
    assert!(tabs.is_empty());
}

#[test]
fn closing_a_tab_leaves_copy_mode_and_shows_the_next_one() {
    let screen = screen(&["abc"], 0, 0);
    let mut tabs = tabs(2);
    let mut copy_mode = CopyMode::default();
    copy_mode.enter(&screen);

    let actions = handle_command(&mut tabs, &mut copy_mode, Some(&screen), None, AppCommand::CloseTab);

    assert_eq!(
        actions,
        vec![
            AppAction::UpdateWindowTitle { copy_mode_active: false },
            AppAction::RefreshTabBar,
            AppAction::ShowActiveTerminalAtBottom,
        ]
    );
    assert_eq!(tabs.len(), 1);
    assert!(!copy_mode.is_active());
}

#[test]
fn switching_tabs_needs_another_tab() {
    let mut one = tabs(1);
    let mut copy_mode = CopyMode::default();
    assert!(handle_command(&mut one, &mut copy_mode, None, None, AppCommand::NextTab).is_empty());

    let mut three = tabs(3);
    let actions = handle_command(&mut three, &mut copy_mode, None, None, AppCommand::PreviousTab);
    assert_eq!(actions, vec![AppAction::RefreshTabBar, AppAction::ShowActiveTerminalAtBottom]);
    assert_eq!(three.active_index(), 1);
}

#[test]
fn a_new_tab_needs_a_view() {
    let mut tabs = tabs(1);
    let mut copy_mode = CopyMode::default();
    assert!(handle_command(&mut tabs, &mut copy_mode, None, None, AppCommand::NewTab).is_empty());

    let size = TerminalSize::new(100, 30);
    let actions = handle_command(&mut tabs, &mut copy_mode, None, Some(size), AppCommand::NewTab);
    assert_eq!(
        actions,
        vec![AppAction::OpenTab(size), AppAction::RefreshTabBar, AppAction::ShowActiveTerminalAtBottom]
    );
}

#[test]
fn resizing_resizes_the_tabs_then_the_view() {
    let size = TerminalSize::new(40, 10);
    let command = AppCommand::Resize { window_width: 800, window_height: 600, terminal_size: size };
    let mut copy_mode = CopyMode::default();

    let mut tabs = tabs(1);
    let actions = handle_command(&mut tabs, &mut copy_mode, None, Some(size), command.clone());
    assert_eq!(
        actions,
        vec![AppAction::ResizeTabs(size), AppAction::ResizeView { window_width: 800, window_height: 600 }]
    );

    let actions = handle_command(&mut tabs, &mut copy_mode, None, None, command);
    assert_eq!(actions, vec![AppAction::ResizeTabs(size)]);
}

#[test]
fn terminal_input_and_paste_go_to_the_window() {
    let mut tabs = tabs(1);
    let mut copy_mode = CopyMode::default();
    let actions = handle_command(
        &mut tabs,
        &mut copy_mode,
        None,
        None,
        AppCommand::SendTerminalInput(b"ls\r".to_vec()),
    );
    assert_eq!(actions, vec![AppAction::SendToTerminal(b"ls\r".to_vec())]);
    let actions = handle_command(&mut tabs, &mut copy_mode, None, None, AppCommand::PasteFromClipboard);
    assert_eq!(actions, vec![AppAction::PasteFromClipboard]);
    assert!(handle_command(&mut tabs, &mut copy_mode, None, None, AppCommand::Noop).is_empty());
}
