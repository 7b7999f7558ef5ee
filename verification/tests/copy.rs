use solito::screen::cell::{ScreenCell, ScreenSnapshot};
use solito::ui::copy::{CopyMode, CopyModeMove};
use solito::ui::movement::{clamp_position, move_position};
use solito::ui::selection::selected_text;
use solito::view::copy_mode::{CopyModePosition, CopyModeSelection, CopyModeSelectionKind};

fn screen(lines: &[&str], cursor_row: usize, cursor_col: usize) -> ScreenSnapshot {
    ScreenSnapshot {
        lines: lines
            .iter()
            .map(|line| {
                line.chars()
                    .map(|ch| {
                        let mut cell = ScreenCell::default();
                        cell.ch = ch;
                        cell
                    })
                    .collect()
            })
            .collect(),
        cursor_row,
        cursor_col,
        cursor_color: None,
        ..ScreenSnapshot::default()
    }
}

#[test]
fn cell_selection_copies_selected_range() {
    let screen = screen(&["abc", "def"], 0, 0);
    let mut copy_mode = CopyMode::default();

    copy_mode.enter(&screen);
    copy_mode.toggle_cell_selection();
    copy_mode.move_cursor(&screen, CopyModeMove::Right);
    copy_mode.move_cursor(&screen, CopyModeMove::Right);

    assert_eq!(copy_mode.selected_text(&screen), Some("abc".to_string()));
}

#[test]
fn line_selection_copies_whole_rows() {
    let screen = screen(&["abc", "def"], 0, 1);
    let mut copy_mode = CopyMode::default();

    copy_mode.enter(&screen);
    copy_mode.toggle_line_selection();
    copy_mode.move_cursor(&screen, CopyModeMove::Down);

    assert_eq!(
        copy_mode.selected_text(&screen),
        Some("abc\ndef".to_string())
    );
}

#[test]
fn word_motion_moves_between_nonblank_runs() {
    let screen = screen(&["abc  def ghi"], 0, 0);
    let mut copy_mode = CopyMode::default();

    copy_mode.enter(&screen);
    copy_mode.move_cursor(&screen, CopyModeMove::NextWord);
    assert_eq!(copy_mode.snapshot().cursor, CopyModePosition::new(0, 5));

    copy_mode.move_cursor(&screen, CopyModeMove::WordEnd);
    assert_eq!(copy_mode.snapshot().cursor, CopyModePosition::new(0, 7));

    copy_mode.move_cursor(&screen, CopyModeMove::PreviousWord);
    assert_eq!(copy_mode.snapshot().cursor, CopyModePosition::new(0, 5));
}

#[test]
fn line_edge_motion_moves_to_line_bounds() {
    let screen = screen(&["abc"], 0, 1);
    let mut copy_mode = CopyMode::default();

    copy_mode.enter(&screen);
    copy_mode.move_cursor(&screen, CopyModeMove::EndOfLine);
    assert_eq!(copy_mode.snapshot().cursor, CopyModePosition::new(0, 2));

    copy_mode.move_cursor(&screen, CopyModeMove::StartOfLine);
    assert_eq!(copy_mode.snapshot().cursor, CopyModePosition::new(0, 0));
}

#[test]
fn first_and_last_line_motion_preserve_column_when_possible() {
    let screen = screen(&["abc", "de", "efg"], 1, 1);
    let mut copy_mode = CopyMode::default();

    copy_mode.enter(&screen);
    copy_mode.move_cursor(&screen, CopyModeMove::LastLine);
    assert_eq!(copy_mode.snapshot().cursor, CopyModePosition::new(2, 1));

    copy_mode.move_cursor(&screen, CopyModeMove::FirstLine);
    assert_eq!(copy_mode.snapshot().cursor, CopyModePosition::new(0, 1));
}

#[test]
fn motion_is_ignored_outside_copy_mode_and_exit_drops_the_selection() {
    let screen = screen(&["abc"], 0, 1);
    let mut copy_mode = CopyMode::new();
    copy_mode.move_cursor(&screen, CopyModeMove::Right);
    copy_mode.toggle_cell_selection();
    assert!(!copy_mode.is_active());
    assert_eq!(copy_mode.snapshot().selection, None);
    assert_eq!(copy_mode.selected_text(&screen), None);

    copy_mode.enter(&screen);
    copy_mode.toggle_cell_selection();
    copy_mode.toggle_cell_selection();
    assert_eq!(copy_mode.snapshot().selection, None);
    copy_mode.toggle_line_selection();
    copy_mode.exit();
    assert!(!copy_mode.is_active());
    assert_eq!(copy_mode.snapshot().selection, None);
}

#[test]
fn word_motion_crosses_rows_and_stops_at_the_ends() {
    let screen = screen(&["ab  ", "  cd", ""], 0, 0);
    let next = move_position(&screen, CopyModePosition::new(0, 0), CopyModeMove::NextWord);
    assert_eq!(next, CopyModePosition::new(1, 2));
    let last = move_position(&screen, CopyModePosition::new(1, 2), CopyModeMove::NextWord);
    assert_eq!(last, CopyModePosition::new(2, 0));
    let back = move_position(&screen, CopyModePosition::new(1, 2), CopyModeMove::PreviousWord);
    assert_eq!(back, CopyModePosition::new(0, 0));
    let start = move_position(&screen, CopyModePosition::new(0, 0), CopyModeMove::PreviousWord);
    assert_eq!(start, CopyModePosition::new(0, 0));
    let end = move_position(&screen, CopyModePosition::new(0, 3), CopyModeMove::WordEnd);
    assert_eq!(end, CopyModePosition::new(1, 3));
}

#[test]
fn pages_move_at_least_five_rows() {
    let rows: Vec<&str> = vec!["x"; 8];
    let screen = screen(&rows, 0, 0);
    let down = move_position(&screen, CopyModePosition::new(0, 0), CopyModeMove::PageDown);
    assert_eq!(down, CopyModePosition::new(5, 0));
    let up = move_position(&screen, CopyModePosition::new(7, 0), CopyModeMove::PageUp);
    assert_eq!(up, CopyModePosition::new(2, 0));
    let clamped = clamp_position(&screen, CopyModePosition::new(99, 99));
    assert_eq!(clamped, CopyModePosition::new(7, 0));
}

#[test]
fn reversed_cell_selection_and_empty_selection() {
    let screen = screen(&["hello", "world"], 0, 0);
    let selection = CopyModeSelection {
        anchor: CopyModePosition::new(1, 1),
        cursor: CopyModePosition::new(0, 3),
        kind: CopyModeSelectionKind::Cell,
    };
    assert_eq!(selected_text(selection, &screen), Some("lo\nwo".to_string()));
    let blank = screen_with_blank_rows();
    let nothing = CopyModeSelection {
        anchor: CopyModePosition::new(0, 0),
        cursor: CopyModePosition::new(0, 0),
        kind: CopyModeSelectionKind::Line,
    };
    assert_eq!(selected_text(nothing, &blank), None);
}

fn screen_with_blank_rows() -> ScreenSnapshot {
    screen(&["", ""], 0, 0)
}

#[test]
fn renderer_snapshot_moves_the_cursor_back_onto_the_screen() {
    let big = screen(&["abcdef", "abcdef", "abcdef"], 2, 5);
    let small = screen(&["ab"], 0, 0);
    let mut copy_mode = CopyMode::new();
    copy_mode.enter(&big);
    copy_mode.toggle_cell_selection();
    let shown = copy_mode.renderer_snapshot(&small);
    assert!(shown.active);
    assert_eq!(shown.cursor, CopyModePosition::new(0, 1));
    assert_eq!(shown.selection.unwrap().anchor, CopyModePosition::new(0, 1));
    copy_mode.exit();
    assert!(!copy_mode.renderer_snapshot(&small).active);
}
