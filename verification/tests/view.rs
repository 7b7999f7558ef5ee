use solito::view::terminal::{cell_text_color, terminal_content_width, CaretPlace, TerminalViewState};
use solito::screen::cell::{ScreenCell, ScreenLine, ScreenSnapshot};
use solito::view::config::WindowBackdrop;
use solito::view::copy_mode::{
    copy_mode_highlights, selected_cols_for_row, CopyModePosition, CopyModeSelection,
    CopyModeSelectionKind, CopyModeSnapshot,
};
use solito::view::tab_bar::{padded_tab_title, TabBarSnapshot};
use solito::view::text_damage::{rows_to_rebuild, TextDamage};
use solito::view::viewport::ViewportState;
use std::collections::BTreeSet;

fn line(text: &str) -> ScreenLine {
    text.chars()
        .map(|ch| {
            let mut cell = ScreenCell::default();
            cell.ch = ch;
            cell
        })
        .collect()
}

/// Rows a window of `height` pixels shows at `line_height` pixels a row.
fn visible_rows(height: u32, line_height: f32) -> usize {
    ((height as f32 / line_height).floor() as usize).max(1)
}

#[test]
fn clamps_active_index_to_existing_tabs() {
    let snapshot = TabBarSnapshot::new(vec!["Tab 1".to_string()], 99);

    assert_eq!(snapshot.active_index(), 0);
}

#[test]
fn tab_titles_are_padded_and_a_single_tab_hides_the_bar() {
    assert_eq!(padded_tab_title("Tab 1"), "  Tab 1  ");
    assert!(!TabBarSnapshot::new(vec!["Tab 1".to_string()], 0).is_shown());
    let bar = TabBarSnapshot::new(vec!["Tab 1".to_string(), "Tab 2".to_string()], 1);
    assert!(bar.is_shown());
    assert_eq!(bar.active_index(), 1);
    assert_eq!(bar.titles(), &["Tab 1".to_string(), "Tab 2".to_string()]);
    assert_eq!(TabBarSnapshot::new(Vec::new(), 3).active_index(), 0);
}

#[test]
fn only_the_opaque_backdrop_is_not_transparent() {
    assert!(!WindowBackdrop::Opaque.is_transparent());
    assert!(WindowBackdrop::Transparent.is_transparent());
    assert!(WindowBackdrop::Acrylic.is_transparent());
}

#[test]
fn detects_only_changed_rows() {
    let previous = ScreenSnapshot {
        lines: vec![line("same"), line("old"), line("same")].into(),
        cursor_visible: false,
        ..ScreenSnapshot::default()
    };
    let next = ScreenSnapshot {
        lines: vec![line("same"), line("new"), line("same")].into(),
        cursor_visible: false,
        ..ScreenSnapshot::default()
    };

    assert_eq!(
        TextDamage::between(&previous, &next, 0..3),
        TextDamage::Rows(BTreeSet::from([1]))
    );
}

#[test]
fn cursor_movement_damages_old_and_new_rows() {
    let previous = ScreenSnapshot {
        lines: vec![line("a"), line("b"), line("c")].into(),
        cursor_row: 0,
        cursor_visible: true,
        ..ScreenSnapshot::default()
    };
    let next = ScreenSnapshot {
        lines: previous.lines.clone(),
        cursor_row: 2,
        cursor_visible: true,
        ..ScreenSnapshot::default()
    };

    assert_eq!(
        TextDamage::between(&previous, &next, 0..3),
        TextDamage::Rows(BTreeSet::from([0, 2]))
    );
}

#[test]
fn hidden_cursor_movement_does_not_damage_text() {
    let previous = ScreenSnapshot {
        lines: vec![line("a"), line("b")].into(),
        cursor_row: 0,
        cursor_visible: false,
        ..ScreenSnapshot::default()
    };
    let next = ScreenSnapshot {
        lines: previous.lines.clone(),
        cursor_row: 1,
        cursor_visible: false,
        ..ScreenSnapshot::default()
    };

    assert_eq!(
        TextDamage::between(&previous, &next, 0..2),
        TextDamage::Clean
    );
}

#[test]
fn cursor_blink_damages_its_row_in_both_directions() {
    let visible = ScreenSnapshot {
        lines: vec![line("prompt")].into(),
        cursor_visible: true,
        ..ScreenSnapshot::default()
    };
    let mut hidden = visible.clone();
    hidden.cursor_visible = false;

    let expected = TextDamage::Rows(BTreeSet::from([0]));
    assert_eq!(TextDamage::between(&visible, &hidden, 0..1), expected);
    assert_eq!(TextDamage::between(&hidden, &visible, 0..1), expected);
}

#[test]
fn offscreen_changes_do_not_damage_visible_text() {
    let previous = ScreenSnapshot {
        lines: vec![line("history"), line("visible"), line("prompt")].into(),
        cursor_visible: true,
        ..ScreenSnapshot::default()
    };
    let mut next = previous.clone();
    next.lines[0] = line("changed");
    next.cursor_col = 1;
    assert_eq!(
        TextDamage::between(&previous, &next, 1..3),
        TextDamage::Clean
    );
    assert_eq!(
        TextDamage::between(&previous, &next, 0..1),
        TextDamage::Rows(BTreeSet::from([0]))
    );
}

#[test]
fn merge_keeps_all_as_the_strongest_damage() {
    let mut damage = TextDamage::Rows(BTreeSet::from([1]));
    damage.mark_all();
    damage.merge(TextDamage::Rows(BTreeSet::from([2])));

    assert_eq!(damage, TextDamage::All);
}

#[test]
fn merge_adds_rows_and_clean_adds_nothing() {
    let mut damage = TextDamage::Clean;
    damage.merge(TextDamage::Clean);
    assert_eq!(damage, TextDamage::Clean);
    damage.merge(TextDamage::Rows(BTreeSet::from([4])));
    assert_eq!(damage, TextDamage::Rows(BTreeSet::from([4])));
    damage.merge(TextDamage::Rows(BTreeSet::from([1, 4, 7])));
    assert_eq!(damage, TextDamage::Rows(BTreeSet::from([1, 4, 7])));
    damage.add_row(9);
    assert_eq!(damage, TextDamage::Rows(BTreeSet::from([1, 4, 7, 9])));
    damage.merge(TextDamage::All);
    assert_eq!(damage, TextDamage::All);
    damage.add_row(2);
    assert_eq!(damage, TextDamage::All);
}

#[test]
fn scroll_to_start_preserves_visible_top_when_rows_grow() {
    let mut viewport = ViewportState::new(visible_rows(30, 10.0));

    viewport.scroll_rows(4, 10);
    let (start, _) = viewport.visible_range(10);

    viewport.scroll_to_start(start, 12);

    assert_eq!(viewport.visible_range(12), (3, 6));
}

#[test]
fn reset_returns_to_bottom() {
    let mut viewport = ViewportState::new(visible_rows(30, 10.0));

    viewport.scroll_rows(4, 10);
    viewport.reset();

    assert!(viewport.is_at_bottom());
    assert_eq!(viewport.visible_range(10), (7, 10));
}

#[test]
fn scroll_to_include_reincludes_same_cursor_after_rows_grow() {
    let mut viewport = ViewportState::new(visible_rows(30, 10.0));

    assert!(!viewport.scroll_to_include(4, 5));
    assert_eq!(viewport.visible_range(5), (2, 5));

    assert!(viewport.scroll_to_include(4, 10));
    assert_eq!(viewport.visible_range(10), (4, 7));
}

#[test]
fn scroll_to_include_reports_no_change_for_visible_cursor() {
    let mut viewport = ViewportState::new(visible_rows(30, 10.0));

    assert!(!viewport.scroll_to_include(8, 10));
    assert_eq!(viewport.visible_range(10), (7, 10));
}

#[test]
fn scrolling_stops_at_the_first_row_and_at_the_bottom() {
    let mut viewport = ViewportState::new(0);
    assert_eq!(viewport.visible_rows(), 1);
    viewport.resize(3, 10);
    viewport.scroll_rows(100, 10);
    assert_eq!(viewport.visible_range(10), (0, 3));
    viewport.scroll_rows(-2, 10);
    assert_eq!(viewport.visible_range(10), (2, 5));
    viewport.scroll_rows(i64::MIN, 10);
    assert!(viewport.is_at_bottom());
    viewport.scroll_rows(i64::MAX, 10);
    assert_eq!(viewport.visible_range(10), (0, 3));
    viewport.scroll_to_include(0, 10);
    assert_eq!(viewport.visible_range(10), (0, 3));
}

#[test]
fn copy_mode_highlights_selected_cells_and_cursor() {
    let lines = vec![line("abcd"), line(""), line("xy")];
    let selection = CopyModeSelection {
        anchor: CopyModePosition::new(0, 2),
        cursor: CopyModePosition::new(2, 5),
        kind: CopyModeSelectionKind::Cell,
    };
    assert_eq!(selected_cols_for_row(selection, 0, &lines), Some((2, 4)));
    assert_eq!(selected_cols_for_row(selection, 1, &lines), Some((0, 1)));
    assert_eq!(selected_cols_for_row(selection, 2, &lines), Some((0, 2)));
    assert_eq!(selected_cols_for_row(selection, 3, &lines), None);
    let line_selection = CopyModeSelection { kind: CopyModeSelectionKind::Line, ..selection };
    assert_eq!(selected_cols_for_row(line_selection, 0, &lines), Some((0, 4)));

    let copy_mode = CopyModeSnapshot {
        active: true,
        cursor: CopyModePosition::new(2, 9),
        selection: Some(selection),
    };
    let highlights = copy_mode_highlights(&copy_mode, &lines, 1, 3);
    assert_eq!(highlights.selection, vec![(0, 0, 1), (1, 0, 2)]);
    assert_eq!(highlights.cursor, Some((1, 1)));
    let above = copy_mode_highlights(&copy_mode, &lines, 0, 1);
    assert_eq!(above.selection, vec![(0, 2, 4)]);
    assert_eq!(above.cursor, None);
    assert_eq!(CopyModeSnapshot::default(), CopyModeSnapshot::inactive());
}

fn rows(count: usize, history_start: usize) -> ScreenSnapshot {
    ScreenSnapshot {
        lines: (0..count).map(|n| line(&format!("row {n}"))).collect(),
        cursor_row: count.saturating_sub(1),
        cursor_visible: true,
        history_start,
        ..ScreenSnapshot::default()
    }
}

#[test]
fn view_keeps_its_scrolled_position_as_history_grows() {
    let mut view = TerminalViewState::new(3);
    view.set_snapshot_at_bottom(rows(10, 0));
    assert_eq!(view.take_text_damage(), TextDamage::All);
    assert_eq!(view.caret_place(), CaretPlace::At(2, 0));

    view.scroll_rows(4);
    assert_eq!(view.take_text_damage(), TextDamage::All);
    assert_eq!(view.caret_place(), CaretPlace::Offscreen);

    view.set_snapshot(rows(12, 0));
    let first = view.copy_mode_highlights();
    assert!(first.selection.is_empty());
    view.scroll_rows(0);
    assert_eq!(view.take_text_damage(), TextDamage::Clean);

    let mut same = rows(12, 0);
    same.lines[4] = line("edited");
    view.set_snapshot(same);
    assert_eq!(view.take_text_damage(), TextDamage::Rows(BTreeSet::from([4])));

    view.set_snapshot(rows(12, 2));
    assert_eq!(view.take_text_damage(), TextDamage::All);

    view.set_snapshot_at_bottom(rows(12, 2));
    assert_eq!(view.caret_place(), CaretPlace::At(2, 0));
    let mut hidden = rows(12, 2);
    hidden.cursor_visible = false;
    view.set_snapshot(hidden);
    assert_eq!(view.caret_place(), CaretPlace::Hidden);
}

#[test]
fn view_scrolls_the_copy_mode_cursor_into_sight() {
    let mut view = TerminalViewState::new(3);
    view.resize(3, rows(10, 0));
    assert!(!view.copy_mode_active());
    view.set_copy_mode(CopyModeSnapshot {
        active: true,
        cursor: CopyModePosition::new(1, 0),
        selection: None,
    });
    assert!(view.copy_mode_active());
    let highlights = view.copy_mode_highlights();
    assert_eq!(highlights.cursor, Some((0, 0)));
    view.set_tab_bar(TabBarSnapshot::new(vec!["a".to_string(), "b".to_string()], 0));
    assert!(view.has_tab_bar());
    assert_eq!(view.row_count(), 10);
}

#[test]
fn terminal_content_width_reserves_horizontal_padding() {
    assert_eq!(terminal_content_width(100), 80);
    assert_eq!(terminal_content_width(10), 1);
}

#[test]
fn the_caret_cell_takes_the_contrast_color() {
    let mut cell = ScreenCell::default();
    assert_eq!(cell_text_color(1, 2, 1, 2, [0, 0, 0, 255], &cell), Some([0, 0, 0, 255]));
    assert_eq!(cell_text_color(1, 3, 1, 2, [0, 0, 0, 255], &cell), None);
    cell.style.fg_rgba = Some([1, 2, 3, 255]);
    assert_eq!(cell_text_color(0, 2, 1, 2, [0, 0, 0, 255], &cell), Some([1, 2, 3, 255]));
}

#[test]
fn merging_empty_row_damage_keeps_rows() {
    let mut damage = TextDamage::Clean;
    damage.merge(TextDamage::Rows(std::collections::BTreeSet::new()));
    assert_eq!(damage, TextDamage::Rows(std::collections::BTreeSet::new()));
    damage.merge(TextDamage::Clean);
    assert_eq!(damage, TextDamage::Rows(std::collections::BTreeSet::new()));
    let mut clean = TextDamage::Clean;
    clean.merge(TextDamage::Clean);
    assert_eq!(clean, TextDamage::Clean);
}

#[test]
fn rebuilt_rows_are_the_damaged_visible_ones_below_the_tab_bar() {
    let rows = BTreeSet::from([1, 3, 5, 9]);
    assert_eq!(rows_to_rebuild(&rows, 3, 9, true), vec![(3, 1), (5, 3)]);
    assert_eq!(rows_to_rebuild(&rows, 3, 9, false), vec![(3, 0), (5, 2)]);
    assert!(rows_to_rebuild(&rows, 6, 9, false).is_empty());
}
