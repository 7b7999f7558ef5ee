use vstd::prelude::*;
use crate::screen::cell::{ScreenCell, ScreenLine};

verus! {

/// A cell of the terminal's rows, history included.
#[derive(Clone, Copy, Debug, Default, PartialEq, Eq, Structural)]
pub struct CopyModePosition {
    pub row: usize,
    pub col: usize,
}

impl CopyModePosition {
    pub fn new(row: usize, col: usize) -> (position: CopyModePosition)
        ensures
            position == (CopyModePosition { row, col }),
    {
        CopyModePosition { row, col }
    }

    /// Reading order: by row, then by column.
    pub open spec fn precedes(self, other: CopyModePosition) -> bool {
        self.row < other.row || (self.row == other.row && self.col <= other.col)
    }
}

/// Whether a selection covers cells or whole rows.
#[derive(Clone, Copy, Debug, PartialEq, Eq, Structural)]
pub enum CopyModeSelectionKind {
    Cell,
    Line,
}

/// A selection from where it was started to where the cursor is now.
#[derive(Clone, Copy, Debug, PartialEq, Eq, Structural)]
pub struct CopyModeSelection {
    pub anchor: CopyModePosition,
    pub cursor: CopyModePosition,
    pub kind: CopyModeSelectionKind,
}

/// What the view shows of copy mode.
#[derive(Clone, Copy, Debug, PartialEq, Eq, Structural)]
pub struct CopyModeSnapshot {
    pub active: bool,
    pub cursor: CopyModePosition,
    pub selection: Option<CopyModeSelection>,
}

impl CopyModeSnapshot {
    /// Copy mode off.
    pub open spec fn spec_inactive() -> CopyModeSnapshot {
        CopyModeSnapshot { active: false, cursor: CopyModePosition { row: 0, col: 0 }, selection: None }
    }

    pub fn inactive() -> (snapshot: CopyModeSnapshot)
        ensures
            snapshot == CopyModeSnapshot::spec_inactive(),
    {
        CopyModeSnapshot { active: false, cursor: CopyModePosition { row: 0, col: 0 }, selection: None }
    }
}

impl Default for CopyModeSnapshot {
    fn default() -> (snapshot: CopyModeSnapshot)
        ensures
            snapshot == CopyModeSnapshot::spec_inactive(),
    {
        CopyModeSnapshot::inactive()
    }
}

/// How many columns a row spans on screen: its cells, at least one.
pub open spec fn spec_display_col_count(lines: Seq<Seq<ScreenCell>>, row: int) -> int {
    if 0 <= row < lines.len() && lines[row].len() > 0 { lines[row].len() as int } else { 1 }
}

/// The first and the last row of a selection.
pub open spec fn spec_ordered_rows(anchor: CopyModePosition, cursor: CopyModePosition) -> (usize, usize) {
    if anchor.row <= cursor.row { (anchor.row, cursor.row) } else { (cursor.row, anchor.row) }
}

/// The two ends of a selection in reading order.
pub open spec fn spec_ordered_positions(anchor: CopyModePosition, cursor: CopyModePosition)
    -> (CopyModePosition, CopyModePosition) {
    if anchor.precedes(cursor) { (anchor, cursor) } else { (cursor, anchor) }
}

/// The columns `start..end` of `row` that a selection highlights, if it reaches the row.
pub open spec fn spec_selected_cols_for_row(
    selection: CopyModeSelection,
    row: int,
    lines: Seq<Seq<ScreenCell>>,
) -> Option<(int, int)> {
    let count = spec_display_col_count(lines, row);
    match selection.kind {
        CopyModeSelectionKind::Line => {
            let (start_row, end_row) = spec_ordered_rows(selection.anchor, selection.cursor);
            if row < start_row || row > end_row { None } else { Some((0, count)) }
        },
        CopyModeSelectionKind::Cell => {
            let (start, end) = spec_ordered_positions(selection.anchor, selection.cursor);
            if row < start.row || row > end.row {
                None
            } else {
                let start_col = if row == start.row { min(start.col as int, count - 1) } else { 0 };
                let end_col = if row == end.row { min(end.col as int, count - 1) + 1 } else { count };
                Some((start_col, end_col))
            }
        },
    }
}

pub open spec fn min(a: int, b: int) -> int {
    if a <= b { a } else { b }
}

/// How many columns `row` spans on screen.
pub fn display_col_count(lines: &Vec<ScreenLine>, row: usize) -> (count: usize)
    ensures
        count == spec_display_col_count(lines@.map_values(|l: ScreenLine| l@), row as int),
{
    if row < lines.len() && lines[row].len() > 0 {
        lines[row].len()
    } else {
        1
    }
}

/// The rows of `anchor` and `cursor`, top first.
pub fn ordered_rows(anchor: CopyModePosition, cursor: CopyModePosition) -> (rows: (usize, usize))
    ensures
        rows == spec_ordered_rows(anchor, cursor),
{
    if anchor.row <= cursor.row {
        (anchor.row, cursor.row)
    } else {
        (cursor.row, anchor.row)
    }
}

/// `anchor` and `cursor` in reading order.
pub fn ordered_positions(anchor: CopyModePosition, cursor: CopyModePosition)
    -> (ends: (CopyModePosition, CopyModePosition))
    ensures
        ends == spec_ordered_positions(anchor, cursor),
{
    if anchor.row < cursor.row || (anchor.row == cursor.row && anchor.col <= cursor.col) {
        (anchor, cursor)
    } else {
        (cursor, anchor)
    }
}

/// The columns of `row` that `selection` highlights.
pub fn selected_cols_for_row(selection: CopyModeSelection, row: usize, lines: &Vec<ScreenLine>)
    -> (cols: Option<(usize, usize)>)
    ensures
        match spec_selected_cols_for_row(selection, row as int, lines@.map_values(|l: ScreenLine| l@)) {
            Some((start, end)) => cols is Some && cols.unwrap().0 == start && cols.unwrap().1 == end,
            None => cols is None,
        },
{
    let count = display_col_count(lines, row);
    match selection.kind {
        CopyModeSelectionKind::Line => {
            let (start_row, end_row) = ordered_rows(selection.anchor, selection.cursor);
            if row < start_row || row > end_row {
                return None;
            }
            Some((0, count))
        },
        CopyModeSelectionKind::Cell => {
            let (start, end) = ordered_positions(selection.anchor, selection.cursor);
            if row < start.row || row > end.row {
                return None;
            }
            let start_col = if row == start.row {
                if start.col < count - 1 { start.col } else { count - 1 }
            } else {
                0
            };
            let end_col = if row == end.row {
                (if end.col < count - 1 { end.col } else { count - 1 }) + 1
            } else {
                count
            };
            Some((start_col, end_col))
        },
    }
}


/// Where copy mode draws on the visible rows: the highlighted column spans of the
/// selection, each as (visible row, first column, end column), and the cursor cell as
/// (visible row, column) when the cursor is on screen.
#[derive(Clone, Debug, PartialEq, Eq)]
pub struct CopyModeHighlights {
    pub selection: Vec<(usize, usize, usize)>,
    pub cursor: Option<(usize, usize)>,
}

/// The highlighted spans of rows `start..end`, top first; rows the selection misses or
/// covers with no column are left out.
pub open spec fn spec_selection_spans(
    selection: CopyModeSelection,
    lines: Seq<Seq<ScreenCell>>,
    start: int,
    end: int,
) -> Seq<(usize, usize, usize)>
    decreases end - start,
{
    if end <= start {
        Seq::empty()
    } else {
        let before = spec_selection_spans(selection, lines, start, end - 1);
        match spec_selected_cols_for_row(selection, end - 1, lines) {
            Some((first, last)) => if first < last {
                before.push(((end - 1 - start) as usize, first as usize, last as usize))
            } else {
                before
            },
            None => before,
        }
    }
}

/// The cursor cell on screen: its visible row and its column, at most the row's last one.
pub open spec fn spec_cursor_cell(
    cursor: CopyModePosition,
    lines: Seq<Seq<ScreenCell>>,
    start: int,
    end: int,
) -> Option<(usize, usize)> {
    if start <= cursor.row < end {
        let last = spec_display_col_count(lines, cursor.row as int) - 1;
        Some(((cursor.row - start) as usize, min(cursor.col as int, last) as usize))
    } else {
        None
    }
}

/// What copy mode highlights on the visible rows `visible_start..visible_end`.
pub fn copy_mode_highlights(
    copy_mode: &CopyModeSnapshot,
    lines: &Vec<ScreenLine>,
    visible_start: usize,
    visible_end: usize,
) -> (highlights: CopyModeHighlights)
    ensures
        highlights.selection@ == match copy_mode.selection {
            Some(selection) => spec_selection_spans(
                selection,
                lines@.map_values(|l: ScreenLine| l@),
                visible_start as int,
                visible_end as int,
            ),
            None => Seq::empty(),
        },
        highlights.cursor == spec_cursor_cell(
            copy_mode.cursor,
            lines@.map_values(|l: ScreenLine| l@),
            visible_start as int,
            visible_end as int,
        ),
{
    let ghost view = lines@.map_values(|l: ScreenLine| l@);
    let mut spans: Vec<(usize, usize, usize)> = Vec::new();
    match copy_mode.selection {
        Some(selection) => {
            let mut row = visible_start;
            while row < visible_end
                invariant
                    visible_start <= row <= visible_end || (visible_end < visible_start && row == visible_start),
                    view == lines@.map_values(|l: ScreenLine| l@),
                    spans@ == spec_selection_spans(selection, view, visible_start as int, row as int),
                decreases visible_end - row,
            {
                match selected_cols_for_row(selection, row, lines) {
                    Some((first, last)) => {
                        if first < last {
                            spans.push((row - visible_start, first, last));
                        }
                    },
                    None => {},
                }
                row = row + 1;
            }
            if visible_end < visible_start {
                assert(spec_selection_spans(selection, view, visible_start as int, visible_end as int)
                    == Seq::<(usize, usize, usize)>::empty());
            }
        },
        None => {},
    }
    let cursor = copy_mode.cursor;
    let cell = if visible_start <= cursor.row && cursor.row < visible_end {
        let last = display_col_count(lines, cursor.row) - 1;
        Some((cursor.row - visible_start, if cursor.col < last { cursor.col } else { last }))
    } else {
        None
    };
    CopyModeHighlights { selection: spans, cursor: cell }
}

} // verus!
