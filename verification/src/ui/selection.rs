use vstd::prelude::*;
use vstd::string::StringExecFns;
use crate::screen::cell::{ScreenCell, ScreenLine, ScreenSnapshot};
use crate::view::copy_mode::{
    ordered_positions, ordered_rows, spec_ordered_positions, spec_ordered_rows, CopyModePosition, CopyModeSelection,
    CopyModeSelectionKind,
};
use crate::ui::movement::{lines_of, spec_line_len, spec_min};
use crate::ui::text::push_char;

verus! {

/// The characters of the first `n` cells of a row that lie in columns `start..end`,
/// leaving out the right halves of wide characters.
pub open spec fn spec_text_upto(cells: Seq<ScreenCell>, n: int, start: int, end: int) -> Seq<char>
    decreases n,
{
    if n <= 0 {
        Seq::empty()
    } else {
        let before = spec_text_upto(cells, n - 1, start, end);
        let col = n - 1;
        if start <= col < end && !cells[col].is_wide_continuation {
            before.push(cells[col].ch)
        } else {
            before
        }
    }
}

/// The text of columns `start..end` of a row; nothing for a row that does not exist.
pub open spec fn spec_line_text(lines: Seq<Seq<ScreenCell>>, row: int, start: int, end: int) -> Seq<char> {
    if 0 <= row < lines.len() {
        spec_text_upto(lines[row], lines[row].len() as int, start, end)
    } else {
        Seq::empty()
    }
}

/// `cols` lists, in increasing order, exactly the columns among the first `n` cells that lie
/// in `start..end` and are no right half of a wide character, and `text` holds the
/// characters of those cells, in the same order.
pub open spec fn spec_picks_cells(
    cells: Seq<ScreenCell>,
    n: int,
    start: int,
    end: int,
    cols: Seq<int>,
    text: Seq<char>,
) -> bool {
    &&& cols.len() == text.len()
    &&& forall|i: int| 0 <= i < cols.len() ==> {
        &&& 0 <= #[trigger] cols[i] < n
        &&& start <= cols[i] < end
        &&& !cells[cols[i]].is_wide_continuation
        &&& text[i] == cells[cols[i]].ch
    }
    &&& forall|i: int, j: int| 0 <= i < j < cols.len() ==> #[trigger] cols[i] < #[trigger] cols[j]
    &&& forall|c: int| 0 <= c < n && start <= c < end && !(#[trigger] cells[c]).is_wide_continuation
        ==> exists|i: int| 0 <= i < cols.len() && cols[i] == c
}

proof fn lemma_text_upto_picks_cells(cells: Seq<ScreenCell>, n: int, start: int, end: int)
    ensures
        exists|cols: Seq<int>| #[trigger] spec_picks_cells(cells, n, start, end, cols, spec_text_upto(cells, n, start, end)),
    decreases n,
{
    if n <= 0 {
        let cols = Seq::<int>::empty();
        assert(spec_picks_cells(cells, n, start, end, cols, spec_text_upto(cells, n, start, end)));
    } else {
        lemma_text_upto_picks_cells(cells, n - 1, start, end);
        let before = spec_text_upto(cells, n - 1, start, end);
        let cols0 = choose|cols: Seq<int>| #[trigger] spec_picks_cells(cells, n - 1, start, end, cols, before);
        let col = n - 1;
        let text = spec_text_upto(cells, n, start, end);
        if start <= col < end && !cells[col].is_wide_continuation {
            let cols = cols0.push(col);
            assert(text == before.push(cells[col].ch));
            assert forall|i: int| 0 <= i < cols.len() implies {
                &&& 0 <= #[trigger] cols[i] < n
                &&& start <= cols[i] < end
                &&& !cells[cols[i]].is_wide_continuation
                &&& text[i] == cells[cols[i]].ch
            } by {
                if i < cols0.len() {
                    assert(cols[i] == cols0[i]);
                    assert(text[i] == before[i]);
                }
            }
            assert forall|i: int, j: int| 0 <= i < j < cols.len() implies #[trigger] cols[i] < #[trigger] cols[j] by {
                if j < cols0.len() {
                    assert(cols0[i] < cols0[j]);
                } else {
                    assert(cols0[i] < n - 1);
                }
            }
            assert forall|c: int| 0 <= c < n && start <= c < end && !(#[trigger] cells[c]).is_wide_continuation
                implies exists|i: int| 0 <= i < cols.len() && cols[i] == c by {
                if c < n - 1 {
                    let i = choose|i: int| 0 <= i < cols0.len() && cols0[i] == c;
                    assert(cols[i] == c);
                } else {
                    assert(cols[cols.len() - 1] == c);
                }
            }
            assert(spec_picks_cells(cells, n, start, end, cols, text));
        } else {
            assert(text == before);
            assert forall|c: int| 0 <= c < n && start <= c < end && !(#[trigger] cells[c]).is_wide_continuation
                implies exists|i: int| 0 <= i < cols0.len() && cols0[i] == c by {
                if c == n - 1 {
                    assert(false);
                }
            }
            assert(spec_picks_cells(cells, n, start, end, cols0, text));
        }
    }
}

/// The text copied from columns `start..end` of a row holds one character for each cell
/// there that is no right half of a wide character, in column order, and nothing else: no
/// character comes from the right half of a wide character.
pub proof fn lemma_row_text_skips_wide_halves(lines: Seq<Seq<ScreenCell>>, row: int, start: int, end: int)
    requires
        0 <= row < lines.len(),
    ensures
        exists|cols: Seq<int>| #[trigger] spec_picks_cells(
            lines[row],
            lines[row].len() as int,
            start,
            end,
            cols,
            spec_line_text(lines, row, start, end),
        ),
{
    let cells = lines[row];
    let n = cells.len() as int;
    lemma_text_upto_picks_cells(cells, n, start, end);
    assert(spec_line_text(lines, row, start, end) == spec_text_upto(cells, n, start, end));
    let cols = choose|cols: Seq<int>| #[trigger] spec_picks_cells(cells, n, start, end, cols, spec_text_upto(cells, n, start, end));
    assert(spec_picks_cells(cells, n, start, end, cols, spec_line_text(lines, row, start, end)));
}

/// A cell selection within one row copies exactly its cells from the first column through
/// the last, in column order, leaving out right halves of wide characters.
pub proof fn lemma_one_row_cell_selection(selection: CopyModeSelection, lines: Seq<Seq<ScreenCell>>, row: int, a: int, b: int)
    requires
        selection.kind == CopyModeSelectionKind::Cell,
        selection.anchor.row == row && selection.cursor.row == row,
        0 <= row < lines.len(),
        a == spec_min(selection.anchor.col as int, selection.cursor.col as int),
        b == (if selection.anchor.col <= selection.cursor.col { selection.cursor.col as int } else { selection.anchor.col as int }),
        b < lines[row].len(),
    ensures
        spec_selected_cells(selection, lines).len() == 1,
        exists|cols: Seq<int>| #[trigger] spec_picks_cells(
            lines[row],
            lines[row].len() as int,
            a,
            b + 1,
            cols,
            spec_selected_cells(selection, lines)[0],
        ),
{
    let text = spec_line_text(lines, row, a, b + 1);
    let (start, end) = spec_ordered_positions(selection.anchor, selection.cursor);
    assert(start.row == row && end.row == row);
    assert(start.col == a && end.col == b);
    assert(spec_selected_cells(selection, lines)[0] == text);
    lemma_row_text_skips_wide_halves(lines, row, a, b + 1);
}

/// Which end of a selection is the anchor does not matter: swapping the anchor and the
/// cursor copies the same text. A line selection copies whole rows, one per row from the
/// first to the last it spans.
pub proof fn lemma_selection_text(selection: CopyModeSelection, lines: Seq<Seq<ScreenCell>>)
    ensures
        spec_selected_text(CopyModeSelection { anchor: selection.cursor, cursor: selection.anchor, ..selection }, lines)
            == spec_selected_text(selection, lines),
        selection.kind == CopyModeSelectionKind::Line ==> ({
            let first = spec_min(selection.anchor.row as int, selection.cursor.row as int);
            let rows = spec_selected_lines(selection, lines);
            &&& rows.len() == (if selection.anchor.row <= selection.cursor.row {
                selection.cursor.row - selection.anchor.row
            } else {
                selection.anchor.row - selection.cursor.row
            }) + 1
            &&& forall|i: int| 0 <= i < rows.len() ==> #[trigger] rows[i] == spec_line_text(lines, first + i, 0, usize::MAX as int)
        }),
{
    let swapped = CopyModeSelection { anchor: selection.cursor, cursor: selection.anchor, ..selection };
    assert(spec_ordered_positions(swapped.anchor, swapped.cursor) == spec_ordered_positions(selection.anchor, selection.cursor)
        || selection.anchor == selection.cursor);
    assert(spec_ordered_rows(swapped.anchor, swapped.cursor) == spec_ordered_rows(selection.anchor, selection.cursor));
    assert(spec_selected_cells(swapped, lines) =~= spec_selected_cells(selection, lines));
    assert(spec_selected_lines(swapped, lines) =~= spec_selected_lines(selection, lines));
}

/// Rows of text joined by line feeds.
pub open spec fn spec_join(rows: Seq<Seq<char>>) -> Seq<char>
    decreases rows.len(),
{
    if rows.len() == 0 {
        Seq::empty()
    } else if rows.len() == 1 {
        rows[0]
    } else {
        spec_join(rows.drop_last()).push('\n') + rows.last()
    }
}

/// The rows a line selection copies: every row between its ends, whole.
pub open spec fn spec_selected_lines(selection: CopyModeSelection, lines: Seq<Seq<ScreenCell>>) -> Seq<Seq<char>> {
    let (first, last) = spec_ordered_rows(selection.anchor, selection.cursor);
    Seq::new(
        (last - first + 1) as nat,
        |i: int| spec_line_text(lines, first + i, 0, usize::MAX as int),
    )
}

/// The columns a cell selection copies from `row`.
pub open spec fn spec_cell_row_text(
    start: CopyModePosition,
    end: CopyModePosition,
    lines: Seq<Seq<ScreenCell>>,
    row: int,
) -> Seq<char> {
    let len = spec_line_len(lines, row);
    let first = if row == start.row { start.col as int } else { 0 };
    let last = if row == end.row { spec_min(end.col + 1, len) } else { len };
    spec_line_text(lines, row, spec_min(first, len), last)
}

/// The rows a cell selection copies: from its first cell to its last in reading order.
pub open spec fn spec_selected_cells(selection: CopyModeSelection, lines: Seq<Seq<ScreenCell>>) -> Seq<Seq<char>> {
    let (start, end) = spec_ordered_positions(selection.anchor, selection.cursor);
    Seq::new(
        (end.row - start.row + 1) as nat,
        |i: int| spec_cell_row_text(start, end, lines, start.row + i),
    )
}

/// The text a selection copies, if there is any.
pub open spec fn spec_selected_text(selection: CopyModeSelection, lines: Seq<Seq<ScreenCell>>) -> Option<Seq<char>> {
    let rows = match selection.kind {
        CopyModeSelectionKind::Line => spec_selected_lines(selection, lines),
        CopyModeSelectionKind::Cell => spec_selected_cells(selection, lines),
    };
    let text = spec_join(rows);
    if text.len() == 0 { None } else { Some(text) }
}

/// The text of columns `start..end` of `row`.
pub fn line_text(screen: &ScreenSnapshot, row: usize, start: usize, end: usize) -> (text: String)
    ensures
        text@ == spec_line_text(lines_of(*screen), row as int, start as int, end as int),
{
    let mut text = String::new();
    if row >= screen.lines.len() {
        return text;
    }
    let line = &screen.lines[row];
    let ghost cells = line@;
    assert(cells == lines_of(*screen)[row as int]);
    let mut col: usize = 0;
    while col < line.len()
        invariant
            cells == line@,
            col <= cells.len(),
            text@ == spec_text_upto(cells, col as int, start as int, end as int),
        decreases cells.len() - col,
    {
        let cell = line[col];
        if start <= col && col < end && !cell.is_wide_continuation {
            push_char(&mut text, cell.ch);
        }
        col = col + 1;
    }
    text
}


/// The texts of a list of strings.
pub open spec fn texts_of(rows: Seq<String>) -> Seq<Seq<char>> {
    rows.map_values(|s: String| s@)
}

/// Every row between the ends of a line selection, whole.
pub fn selected_lines(selection: CopyModeSelection, screen: &ScreenSnapshot) -> (rows: Vec<String>)
    ensures
        texts_of(rows@) == spec_selected_lines(selection, lines_of(*screen)),
{
    let ghost want = spec_selected_lines(selection, lines_of(*screen));
    let (first, last) = ordered_rows(selection.anchor, selection.cursor);
    let mut rows: Vec<String> = Vec::new();
    let mut row = first;
    loop
        invariant_except_break
            first <= row <= last,
            rows@.len() == row - first,
        invariant
            (first, last) == spec_ordered_rows(selection.anchor, selection.cursor),
            want == spec_selected_lines(selection, lines_of(*screen)),
            want.len() == last - first + 1,
            forall|i: int| 0 <= i < rows@.len() ==> (#[trigger] rows@[i])@ == want[i],
        ensures
            rows@.len() == want.len(),
        decreases last - row,
    {
        let text = line_text(screen, row, 0, usize::MAX);
        rows.push(text);
        if row == last {
            break;
        }
        row = row + 1;
    }
    assert(texts_of(rows@) =~= want);
    rows
}

/// The rows of a cell selection, from its first cell to its last.
pub fn selected_cells(selection: CopyModeSelection, screen: &ScreenSnapshot) -> (rows: Vec<String>)
    ensures
        texts_of(rows@) == spec_selected_cells(selection, lines_of(*screen)),
{
    let ghost want = spec_selected_cells(selection, lines_of(*screen));
    let (start, end) = ordered_positions(selection.anchor, selection.cursor);
    let mut rows: Vec<String> = Vec::new();
    let mut row = start.row;
    loop
        invariant_except_break
            start.row <= row <= end.row,
            rows@.len() == row - start.row,
        invariant
            (start, end) == spec_ordered_positions(selection.anchor, selection.cursor),
            want == spec_selected_cells(selection, lines_of(*screen)),
            want.len() == end.row - start.row + 1,
            forall|i: int| 0 <= i < rows@.len() ==> (#[trigger] rows@[i])@ == want[i],
        ensures
            rows@.len() == want.len(),
        decreases end.row - row,
    {
        let len = if row < screen.lines.len() { screen.lines[row].len() } else { 0 };
        let first = if row == start.row { start.col } else { 0 };
        let last = if row == end.row {
            if end.col < len { end.col + 1 } else { len }
        } else {
            len
        };
        let text = line_text(screen, row, if first < len { first } else { len }, last);
        rows.push(text);
        if row == end.row {
            break;
        }
        row = row + 1;
    }
    assert(texts_of(rows@) =~= want);
    rows
}

/// Rows of text joined by line feeds.
pub fn join_rows(rows: &Vec<String>) -> (text: String)
    ensures
        text@ == spec_join(texts_of(rows@)),
{
    let ghost texts = texts_of(rows@);
    let mut text = String::new();
    let mut i: usize = 0;
    while i < rows.len()
        invariant
            texts == texts_of(rows@),
            i <= rows@.len(),
            text@ == spec_join(texts.take(i as int)),
        decreases rows@.len() - i,
    {
        if i > 0 {
            push_char(&mut text, '\n');
        }
        text.append(rows[i].as_str());
        proof {
            assert(texts.take(i + 1).drop_last() =~= texts.take(i as int));
            assert(texts.take(i + 1).last() == texts[i as int]);
            if i == 0 {
                assert(texts.take(1)[0] == texts[0]);
            }
        }
        i = i + 1;
    }
    assert(texts.take(rows@.len() as int) =~= texts);
    text
}

/// The text that `selection` copies from `screen`, or `None` when it copies nothing.
pub fn selected_text(selection: CopyModeSelection, screen: &ScreenSnapshot) -> (text: Option<String>)
    ensures
        match spec_selected_text(selection, lines_of(*screen)) {
            Some(t) => text is Some && text.unwrap()@ == t,
            None => text is None,
        },
{
    let rows = match selection.kind {
        CopyModeSelectionKind::Line => selected_lines(selection, screen),
        CopyModeSelectionKind::Cell => selected_cells(selection, screen),
    };
    let text = join_rows(&rows);
    if text.as_str().is_empty() {
        None
    } else {
        Some(text)
    }
}

} // verus!
