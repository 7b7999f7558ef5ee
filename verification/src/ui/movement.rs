use vstd::prelude::*;
use crate::screen::cell::{ScreenCell, ScreenLine, ScreenSnapshot};
use crate::view::copy_mode::CopyModePosition;
use crate::ui::copy::CopyModeMove;
use crate::ui::text::{is_whitespace, unicode_white_space};

verus! {

/// The rows of a snapshot as cells.
pub open spec fn lines_of(screen: ScreenSnapshot) -> Seq<Seq<ScreenCell>> {
    screen.lines@.map_values(|l: ScreenLine| l@)
}

/// Copy mode moves over at least one row, even on an empty screen.
pub open spec fn spec_row_count(lines: Seq<Seq<ScreenCell>>) -> int {
    if lines.len() > 0 { lines.len() as int } else { 1 }
}

pub open spec fn spec_line_len(lines: Seq<Seq<ScreenCell>>, row: int) -> int {
    if 0 <= row < lines.len() { lines[row].len() as int } else { 0 }
}

/// The last column the cursor may take on a row: its last cell, or 0.
pub open spec fn spec_last_col(lines: Seq<Seq<ScreenCell>>, row: int) -> int {
    if spec_line_len(lines, row) > 0 { spec_line_len(lines, row) - 1 } else { 0 }
}

/// A cell that belongs to a word: it exists, is no right half of a wide character, and
/// holds no white space.
pub open spec fn spec_nonblank(lines: Seq<Seq<ScreenCell>>, row: int, col: int) -> bool {
    &&& 0 <= row < lines.len()
    &&& 0 <= col < lines[row].len()
    &&& !lines[row][col].is_wide_continuation
    &&& !unicode_white_space(lines[row][col].ch)
}

pub open spec fn spec_min(a: int, b: int) -> int {
    if a <= b { a } else { b }
}

pub open spec fn spec_position(row: int, col: int) -> CopyModePosition {
    CopyModePosition { row: row as usize, col: col as usize }
}

/// A position moved onto the rows and cells that exist.
pub open spec fn spec_clamp(lines: Seq<Seq<ScreenCell>>, position: CopyModePosition) -> CopyModePosition {
    let row = spec_min(position.row as int, spec_row_count(lines) - 1);
    spec_position(row, spec_min(position.col as int, spec_last_col(lines, row)))
}

/// The last cell of the last row.
pub open spec fn spec_last_position(lines: Seq<Seq<ScreenCell>>) -> CopyModePosition {
    let row = spec_row_count(lines) - 1;
    spec_position(row, spec_last_col(lines, row))
}

/// How far a page moves: half the rows, between 5 and 20.
pub open spec fn spec_page_rows(lines: Seq<Seq<ScreenCell>>) -> int {
    let half = lines.len() as int / 2;
    if half < 5 { 5 } else if half > 20 { 20 } else { half }
}

/// The first column at or after `col` that does not continue the word there.
pub open spec fn spec_run_end(lines: Seq<Seq<ScreenCell>>, row: int, col: int) -> int
    decreases spec_line_len(lines, row) - col,
{
    if col < spec_line_len(lines, row) && spec_nonblank(lines, row, col) {
        spec_run_end(lines, row, col + 1)
    } else {
        col
    }
}

/// The first column of the word that holds the cell before `col`, or `col`.
pub open spec fn spec_run_start(lines: Seq<Seq<ScreenCell>>, row: int, col: int) -> int
    decreases col,
{
    if col > 0 && spec_nonblank(lines, row, col - 1) {
        spec_run_start(lines, row, col - 1)
    } else {
        col
    }
}

/// The last column of the word that goes on right of `col`.
pub open spec fn spec_extend_right(lines: Seq<Seq<ScreenCell>>, row: int, col: int) -> int
    decreases spec_last_col(lines, row) - col,
{
    if col < spec_last_col(lines, row) && spec_nonblank(lines, row, col + 1) {
        spec_extend_right(lines, row, col + 1)
    } else {
        col
    }
}

/// The first word cell at or after (`row`, `col`) in reading order.
pub open spec fn spec_first_nonblank_from(lines: Seq<Seq<ScreenCell>>, row: int, col: int) -> Option<(int, int)>
    decreases spec_row_count(lines) - row, spec_line_len(lines, row) - col,
{
    if row >= spec_row_count(lines) {
        None
    } else if col >= spec_line_len(lines, row) {
        spec_first_nonblank_from(lines, row + 1, 0)
    } else if spec_nonblank(lines, row, col) {
        Some((row, col))
    } else {
        spec_first_nonblank_from(lines, row, col + 1)
    }
}

/// The last word cell at or before (`row`, `col`) in reading order.
pub open spec fn spec_last_nonblank_until(lines: Seq<Seq<ScreenCell>>, row: int, col: int) -> Option<(int, int)>
    decreases row, col,
{
    if row < 0 || col < 0 {
        None
    } else if spec_nonblank(lines, row, col) {
        Some((row, col))
    } else if col > 0 {
        spec_last_nonblank_until(lines, row, col - 1)
    } else if row > 0 {
        spec_last_nonblank_until(lines, row - 1, spec_last_col(lines, row - 1))
    } else {
        None
    }
}

/// The start of the next word: past the word under the cursor, the first word cell that
/// follows; the last cell when no word follows.
pub open spec fn spec_next_word_start(lines: Seq<Seq<ScreenCell>>, position: CopyModePosition) -> CopyModePosition {
    let start = spec_clamp(lines, position);
    let col = spec_run_end(lines, start.row as int, start.col as int);
    match spec_first_nonblank_from(lines, start.row as int, col) {
        Some((row, found)) => spec_position(row, found),
        None => spec_last_position(lines),
    }
}

/// The start of the word before the cursor, or the first cell when there is none.
pub open spec fn spec_previous_word_start(lines: Seq<Seq<ScreenCell>>, position: CopyModePosition) -> CopyModePosition {
    let start = spec_clamp(lines, position);
    let row = start.row as int;
    let col = start.col as int;
    if col == 0 && row == 0 {
        spec_position(0, 0)
    } else {
        let back = if col > 0 { (row, col - 1) } else { (row - 1, spec_last_col(lines, row - 1)) };
        match spec_last_nonblank_until(lines, back.0, back.1) {
            Some((found_row, found_col)) => spec_position(found_row, spec_run_start(lines, found_row, found_col)),
            None => spec_position(0, 0),
        }
    }
}

/// The end of the word: of the one under the cursor when it goes on, else of the next one.
pub open spec fn spec_word_end(lines: Seq<Seq<ScreenCell>>, position: CopyModePosition) -> CopyModePosition {
    let start = spec_clamp(lines, position);
    let row = start.row as int;
    let col = start.col as int;
    if spec_nonblank(lines, row, col) && col < spec_last_col(lines, row) && spec_nonblank(lines, row, col + 1) {
        spec_position(row, spec_extend_right(lines, row, col))
    } else {
        let next = spec_clamp(lines, spec_next_word_start(lines, position));
        spec_position(next.row as int, spec_extend_right(lines, next.row as int, next.col as int))
    }
}

pub fn line_len(screen: &ScreenSnapshot, row: usize) -> (len: usize)
    ensures
        len == spec_line_len(lines_of(*screen), row as int),
{
    if row < screen.lines.len() {
        screen.lines[row].len()
    } else {
        0
    }
}

pub fn last_col(screen: &ScreenSnapshot, row: usize) -> (col: usize)
    ensures
        col == spec_last_col(lines_of(*screen), row as int),
{
    let len = line_len(screen, row);
    if len > 0 {
        len - 1
    } else {
        0
    }
}

pub fn is_nonblank(screen: &ScreenSnapshot, row: usize, col: usize) -> (nonblank: bool)
    ensures
        nonblank == spec_nonblank(lines_of(*screen), row as int, col as int),
{
    if row < screen.lines.len() && col < screen.lines[row].len() {
        let cell = screen.lines[row][col];
        !cell.is_wide_continuation && !is_whitespace(cell.ch)
    } else {
        false
    }
}

fn row_count(screen: &ScreenSnapshot) -> (count: usize)
    ensures
        count == spec_row_count(lines_of(*screen)),
{
    if screen.lines.len() > 0 {
        screen.lines.len()
    } else {
        1
    }
}

pub fn page_rows(screen: &ScreenSnapshot) -> (rows: usize)
    ensures
        rows == spec_page_rows(lines_of(*screen)),
{
    let half = screen.lines.len() / 2;
    if half < 5 {
        5
    } else if half > 20 {
        20
    } else {
        half
    }
}

pub fn clamp_position(screen: &ScreenSnapshot, position: CopyModePosition) -> (clamped: CopyModePosition)
    ensures
        clamped == spec_clamp(lines_of(*screen), position),
{
    let count = row_count(screen);
    let row = if position.row < count - 1 { position.row } else { count - 1 };
    let last = last_col(screen, row);
    let col = if position.col < last { position.col } else { last };
    CopyModePosition::new(row, col)
}

pub fn last_position(screen: &ScreenSnapshot) -> (last: CopyModePosition)
    ensures
        last == spec_last_position(lines_of(*screen)),
{
    let row = row_count(screen) - 1;
    CopyModePosition::new(row, last_col(screen, row))
}


/// The start of the next word.
pub fn next_word_start(screen: &ScreenSnapshot, position: CopyModePosition) -> (next: CopyModePosition)
    ensures
        next == spec_next_word_start(lines_of(*screen), position),
{
    let ghost lines = lines_of(*screen);
    let count = row_count(screen);
    let start = clamp_position(screen, position);
    let mut row = start.row;
    let mut col = start.col;
    if is_nonblank(screen, row, col) {
        while col < line_len(screen, row) && is_nonblank(screen, row, col)
            invariant
                lines == lines_of(*screen),
                row == start.row,
                start.col <= col <= spec_line_len(lines, row as int),
                spec_run_end(lines, row as int, col as int) == spec_run_end(lines, row as int, start.col as int),
            decreases spec_line_len(lines, row as int) - col,
        {
            col = col + 1;
        }
    }
    let ghost target = spec_first_nonblank_from(lines, row as int, col as int);
    assert(target == spec_first_nonblank_from(lines, start.row as int, spec_run_end(lines, start.row as int, start.col as int)));
    let ghost goal = spec_next_word_start(lines, position);
    assert(goal == match target {
        Some((r, c)) => spec_position(r, c),
        None => spec_last_position(lines),
    });
    while row < count
        invariant
            lines == lines_of(*screen),
            count == spec_row_count(lines),
            row <= count,
            col <= spec_line_len(lines, row as int) || row == start.row,
            spec_first_nonblank_from(lines, row as int, col as int) == target,
            goal == spec_next_word_start(lines, position),
            goal == match target {
                Some((r, c)) => spec_position(r, c),
                None => spec_last_position(lines),
            },
        decreases count - row, spec_line_len(lines, row as int) - col,
    {
        while col < line_len(screen, row) && !is_nonblank(screen, row, col)
            invariant
                lines == lines_of(*screen),
                count == spec_row_count(lines),
                row < count,
                spec_first_nonblank_from(lines, row as int, col as int) == target,
                goal == spec_next_word_start(lines, position),
                goal == match target {
                    Some((r, c)) => spec_position(r, c),
                    None => spec_last_position(lines),
                },
            decreases spec_line_len(lines, row as int) - col,
        {
            col = col + 1;
        }
        if col < line_len(screen, row) {
            assert(spec_first_nonblank_from(lines, row as int, col as int) == Some((row as int, col as int)));
            return CopyModePosition::new(row, col);
        }
        row = row + 1;
        col = 0;
    }
    last_position(screen)
}

/// The start of the word before the cursor.
pub fn previous_word_start(screen: &ScreenSnapshot, position: CopyModePosition) -> (previous: CopyModePosition)
    ensures
        previous == spec_previous_word_start(lines_of(*screen), position),
{
    let ghost lines = lines_of(*screen);
    let start = clamp_position(screen, position);
    let mut row = start.row;
    let mut col = start.col;
    if col > 0 {
        col = col - 1;
    } else if row > 0 {
        row = row - 1;
        col = last_col(screen, row);
    } else {
        return CopyModePosition::new(row, 0);
    }
    let ghost target = spec_last_nonblank_until(lines, row as int, col as int);
    let ghost goal = spec_previous_word_start(lines, position);
    assert(goal == match target {
        Some((r, c)) => spec_position(r, spec_run_start(lines, r, c)),
        None => spec_position(0, 0),
    });
    while !is_nonblank(screen, row, col)
        invariant
            lines == lines_of(*screen),
            goal == spec_previous_word_start(lines, position),
            goal == match target {
                Some((r, c)) => spec_position(r, spec_run_start(lines, r, c)),
                None => spec_position(0, 0),
            },
            spec_last_nonblank_until(lines, row as int, col as int) == target,
        decreases row, col,
    {
        if col > 0 {
            col = col - 1;
        } else if row > 0 {
            row = row - 1;
            col = last_col(screen, row);
        } else {
            assert(spec_last_nonblank_until(lines, row as int, col as int) == None::<(int, int)>);
            return CopyModePosition::new(0, 0);
        }
    }
    assert(target == Some((row as int, col as int)));
    let ghost found_col = col;
    while col > 0 && is_nonblank(screen, row, col - 1)
        invariant
            lines == lines_of(*screen),
            spec_run_start(lines, row as int, col as int) == spec_run_start(lines, row as int, found_col as int),
        decreases col,
    {
        col = col - 1;
    }
    CopyModePosition::new(row, col)
}

/// Moves right while the word goes on.
fn extend_right(screen: &ScreenSnapshot, row: usize, from: usize) -> (end: usize)
    ensures
        end == spec_extend_right(lines_of(*screen), row as int, from as int),
{
    let ghost lines = lines_of(*screen);
    let mut col = from;
    while col < last_col(screen, row) && is_nonblank(screen, row, col + 1)
        invariant
            lines == lines_of(*screen),
            spec_extend_right(lines, row as int, col as int) == spec_extend_right(lines, row as int, from as int),
        decreases spec_last_col(lines, row as int) - col,
    {
        col = col + 1;
    }
    col
}

/// The end of the current or the next word.
pub fn word_end(screen: &ScreenSnapshot, position: CopyModePosition) -> (end: CopyModePosition)
    ensures
        end == spec_word_end(lines_of(*screen), position),
{
    let start = clamp_position(screen, position);
    let row = start.row;
    let col = start.col;
    if is_nonblank(screen, row, col) && col < last_col(screen, row) && is_nonblank(screen, row, col + 1) {
        return CopyModePosition::new(row, extend_right(screen, row, col));
    }
    let next = clamp_position(screen, next_word_start(screen, position));
    CopyModePosition::new(next.row, extend_right(screen, next.row, next.col))
}


/// `a - b`, or zero when `b` is larger.
pub open spec fn spec_sat_sub(a: int, b: int) -> int {
    if a > b { a - b } else { 0 }
}

/// The row `row` keeps its column on: at most the row's last one.
pub open spec fn spec_on_row(lines: Seq<Seq<ScreenCell>>, row: int, col: int) -> CopyModePosition {
    spec_position(row, spec_min(col, spec_last_col(lines, row)))
}

/// Where a motion takes the cursor, from its position clamped onto the screen.
pub open spec fn spec_move(lines: Seq<Seq<ScreenCell>>, position: CopyModePosition, direction: CopyModeMove) -> CopyModePosition {
    let last_row = spec_row_count(lines) - 1;
    let start = spec_clamp(lines, position);
    let row = start.row as int;
    let col = start.col as int;
    match direction {
        CopyModeMove::Left => spec_position(row, spec_sat_sub(col, 1)),
        CopyModeMove::Right => spec_position(row, spec_min(col + 1, spec_last_col(lines, row))),
        CopyModeMove::Up => spec_on_row(lines, spec_sat_sub(row, 1), col),
        CopyModeMove::Down => spec_on_row(lines, spec_min(row + 1, last_row), col),
        CopyModeMove::StartOfLine => spec_position(row, 0),
        CopyModeMove::EndOfLine => spec_position(row, spec_last_col(lines, row)),
        CopyModeMove::NextWord => spec_next_word_start(lines, position),
        CopyModeMove::PreviousWord => spec_previous_word_start(lines, position),
        CopyModeMove::WordEnd => spec_word_end(lines, position),
        CopyModeMove::FirstLine => spec_on_row(lines, 0, col),
        CopyModeMove::LastLine => spec_on_row(lines, last_row, col),
        CopyModeMove::PageUp => spec_on_row(lines, spec_sat_sub(row, spec_page_rows(lines)), col),
        CopyModeMove::PageDown => spec_on_row(lines, spec_min(row + spec_page_rows(lines), last_row), col),
    }
}

/// Where `direction` takes the cursor from `position`.
pub fn move_position(screen: &ScreenSnapshot, position: CopyModePosition, direction: CopyModeMove) -> (moved: CopyModePosition)
    ensures
        moved == spec_move(lines_of(*screen), position, direction),
{
    let count = row_count(screen);
    let start = clamp_position(screen, position);
    let mut row = start.row;
    let mut col = start.col;
    match direction {
        CopyModeMove::Left => {
            col = if col > 0 { col - 1 } else { 0 };
        },
        CopyModeMove::Right => {
            let last = last_col(screen, row);
            col = if col < last { col + 1 } else { last };
        },
        CopyModeMove::Up => {
            row = if row > 0 { row - 1 } else { 0 };
            let last = last_col(screen, row);
            col = if col < last { col } else { last };
        },
        CopyModeMove::Down => {
            row = if row < count - 1 { row + 1 } else { count - 1 };
            let last = last_col(screen, row);
            col = if col < last { col } else { last };
        },
        CopyModeMove::StartOfLine => {
            col = 0;
        },
        CopyModeMove::EndOfLine => {
            col = last_col(screen, row);
        },
        CopyModeMove::NextWord => {
            return next_word_start(screen, position);
        },
        CopyModeMove::PreviousWord => {
            return previous_word_start(screen, position);
        },
        CopyModeMove::WordEnd => {
            return word_end(screen, position);
        },
        CopyModeMove::FirstLine => {
            row = 0;
            let last = last_col(screen, row);
            col = if col < last { col } else { last };
        },
        CopyModeMove::LastLine => {
            row = count - 1;
            let last = last_col(screen, row);
            col = if col < last { col } else { last };
        },
        CopyModeMove::PageUp => {
            let page = page_rows(screen);
            row = if row > page { row - page } else { 0 };
            let last = last_col(screen, row);
            col = if col < last { col } else { last };
        },
        CopyModeMove::PageDown => {
            let page = page_rows(screen);
            row = if row < count - 1 && count - 1 - row > page { row + page } else { count - 1 };
            let last = last_col(screen, row);
            col = if col < last { col } else { last };
        },
    }
    CopyModePosition::new(row, col)
}


/// Rows and cells that a snapshot can hold.
pub open spec fn spec_fits(lines: Seq<Seq<ScreenCell>>) -> bool {
    &&& lines.len() <= usize::MAX
    &&& forall|r: int| 0 <= r < lines.len() ==> (#[trigger] lines[r]).len() <= usize::MAX
}

/// A position on a row that exists, at a cell that exists or at column 0 of an empty row.
pub open spec fn spec_on_screen(lines: Seq<Seq<ScreenCell>>, position: CopyModePosition) -> bool {
    &&& position.row < spec_row_count(lines)
    &&& position.col <= spec_last_col(lines, position.row as int)
}

proof fn lemma_first_nonblank_bounds(lines: Seq<Seq<ScreenCell>>, row: int, col: int)
    requires
        row >= 0,
    ensures
        spec_first_nonblank_from(lines, row, col) matches Some((r, c)) ==> row <= r < spec_row_count(lines)
            && spec_nonblank(lines, r, c),
    decreases spec_row_count(lines) - row, spec_line_len(lines, row) - col,
{
    if row >= spec_row_count(lines) {
    } else if col >= spec_line_len(lines, row) {
        lemma_first_nonblank_bounds(lines, row + 1, 0);
    } else if spec_nonblank(lines, row, col) {
    } else {
        lemma_first_nonblank_bounds(lines, row, col + 1);
    }
}

proof fn lemma_last_nonblank_bounds(lines: Seq<Seq<ScreenCell>>, row: int, col: int)
    ensures
        spec_last_nonblank_until(lines, row, col) matches Some((r, c)) ==> 0 <= r <= row && spec_nonblank(lines, r, c),
    decreases row, col,
{
    if row < 0 || col < 0 {
    } else if spec_nonblank(lines, row, col) {
    } else if col > 0 {
        lemma_last_nonblank_bounds(lines, row, col - 1);
    } else if row > 0 {
        lemma_last_nonblank_bounds(lines, row - 1, spec_last_col(lines, row - 1));
    }
}

proof fn lemma_run_start_bounds(lines: Seq<Seq<ScreenCell>>, row: int, col: int)
    requires
        col >= 0,
    ensures
        0 <= spec_run_start(lines, row, col) <= col,
        spec_nonblank(lines, row, col) ==> spec_nonblank(lines, row, spec_run_start(lines, row, col)),
        spec_run_start(lines, row, col) == 0 || !spec_nonblank(lines, row, spec_run_start(lines, row, col) - 1),
    decreases col,
{
    if col > 0 && spec_nonblank(lines, row, col - 1) {
        lemma_run_start_bounds(lines, row, col - 1);
    }
}

proof fn lemma_extend_right_bounds(lines: Seq<Seq<ScreenCell>>, row: int, col: int)
    requires
        0 <= col <= spec_last_col(lines, row),
    ensures
        col <= spec_extend_right(lines, row, col) <= spec_last_col(lines, row),
    decreases spec_last_col(lines, row) - col,
{
    if col < spec_last_col(lines, row) && spec_nonblank(lines, row, col + 1) {
        lemma_extend_right_bounds(lines, row, col + 1);
    }
}

/// Clamping a clamped position changes nothing.
pub proof fn lemma_clamp_is_idempotent(lines: Seq<Seq<ScreenCell>>, position: CopyModePosition)
    requires
        spec_fits(lines),
    ensures
        spec_clamp(lines, spec_clamp(lines, position)) == spec_clamp(lines, position),
        spec_on_screen(lines, spec_clamp(lines, position)),
{
}

/// Up and Down move one row: from a position on the screen on a row past the first, Up
/// lands on the row above, keeping the column where that row reaches it, and Down from there
/// comes back to the starting row; from a row before the last, Down lands on the row below.
/// Up stays on the first row and Down on the last.
pub proof fn lemma_up_and_down_move_one_row(lines: Seq<Seq<ScreenCell>>, position: CopyModePosition)
    requires
        spec_fits(lines),
        spec_clamp(lines, position) == position,
    ensures
        ({
            let up = spec_move(lines, position, CopyModeMove::Up);
            let down = spec_move(lines, position, CopyModeMove::Down);
            let row = position.row as int;
            &&& row > 0 ==> up.row == row - 1
            &&& row > 0 && position.col < spec_line_len(lines, row - 1) ==> up.col == position.col
            &&& row > 0 ==> spec_move(lines, up, CopyModeMove::Down).row == row
            &&& row == 0 ==> up.row == 0
            &&& row + 1 < lines.len() ==> down.row == row + 1
            &&& row + 1 < lines.len() && position.col < spec_line_len(lines, row + 1) ==> down.col == position.col
            &&& row + 1 < lines.len() ==> spec_move(lines, down, CopyModeMove::Up).row == row
            &&& row + 1 >= lines.len() ==> down.row == row
        }),
{
    let row = position.row as int;
    assert(row < spec_row_count(lines));
    let up = spec_move(lines, position, CopyModeMove::Up);
    let down = spec_move(lines, position, CopyModeMove::Down);
    if row > 0 {
        assert(up.row == row - 1);
        assert(spec_clamp(lines, up).row == up.row);
    }
    if row + 1 < lines.len() {
        assert(down.row == row + 1);
        assert(spec_clamp(lines, down).row == down.row);
    }
}

/// The motions along a row and to the ends of the screen, from a position on the screen:
/// Left and Right move one cell and undo each other, stopping at the ends of the row;
/// StartOfLine goes to column 0 and EndOfLine to the row's last cell; FirstLine and LastLine
/// go to the first and the last row; PageUp and PageDown move by whole pages, at least five
/// rows, stopping at the first and the last row. None of the row motions changes the row,
/// and none of the vertical ones moves past a cell the row it lands on has.
pub proof fn lemma_line_and_page_motions(lines: Seq<Seq<ScreenCell>>, position: CopyModePosition)
    requires
        spec_fits(lines),
        spec_clamp(lines, position) == position,
    ensures
        ({
            let row = position.row as int;
            let col = position.col as int;
            let len = spec_line_len(lines, row);
            let last_row = spec_row_count(lines) - 1;
            let left = spec_move(lines, position, CopyModeMove::Left);
            let right = spec_move(lines, position, CopyModeMove::Right);
            let home = spec_move(lines, position, CopyModeMove::StartOfLine);
            let end = spec_move(lines, position, CopyModeMove::EndOfLine);
            let first = spec_move(lines, position, CopyModeMove::FirstLine);
            let last = spec_move(lines, position, CopyModeMove::LastLine);
            let page_up = spec_move(lines, position, CopyModeMove::PageUp);
            let page_down = spec_move(lines, position, CopyModeMove::PageDown);
            &&& left.row == row && right.row == row && home.row == row && end.row == row
            &&& col > 0 ==> left.col == col - 1 && spec_move(lines, left, CopyModeMove::Right) == position
            &&& col == 0 ==> left.col == 0
            &&& col + 1 < len ==> right.col == col + 1 && spec_move(lines, right, CopyModeMove::Left) == position
            &&& col + 1 >= len ==> right.col == col
            &&& home.col == 0
            &&& len > 0 ==> end.col == len - 1
            &&& len == 0 ==> end.col == 0
            &&& first.row == 0
            &&& last.row == last_row
            &&& spec_move(lines, last, CopyModeMove::Down).row == last_row
            &&& spec_page_rows(lines) >= 5
            &&& page_up.row == if row >= spec_page_rows(lines) { row - spec_page_rows(lines) } else { 0 }
            &&& page_down.row == if row + spec_page_rows(lines) <= last_row { row + spec_page_rows(lines) } else { last_row }
            &&& forall|p: CopyModePosition| p == first || p == last || p == page_up || p == page_down
                ==> spec_on_screen(lines, p) && (p.col == col || p.col == spec_last_col(lines, p.row as int))
        }),
{
    let row = position.row as int;
    let col = position.col as int;
    let left = spec_move(lines, position, CopyModeMove::Left);
    let right = spec_move(lines, position, CopyModeMove::Right);
    assert(spec_clamp(lines, left) == left);
    assert(spec_clamp(lines, right) == right);
    let last = spec_move(lines, position, CopyModeMove::LastLine);
    assert(spec_clamp(lines, last) == last);
}

/// Every copy-mode motion leaves the cursor on the screen: on a row that exists, at a cell
/// that exists or at the start of an empty row.
pub proof fn lemma_motion_stays_on_screen(
    lines: Seq<Seq<ScreenCell>>,
    position: CopyModePosition,
    direction: CopyModeMove,
)
    requires
        spec_fits(lines),
    ensures
        spec_on_screen(lines, spec_move(lines, position, direction)),
{
    let start = spec_clamp(lines, position);
    let row = start.row as int;
    let col = start.col as int;
    match direction {
        CopyModeMove::NextWord => {
            let from = spec_run_end(lines, row, col);
            lemma_first_nonblank_bounds(lines, row, from);
        },
        CopyModeMove::PreviousWord => {
            if !(col == 0 && row == 0) {
                let back = if col > 0 { (row, col - 1) } else { (row - 1, spec_last_col(lines, row - 1)) };
                lemma_last_nonblank_bounds(lines, back.0, back.1);
                if let Some((r, c)) = spec_last_nonblank_until(lines, back.0, back.1) {
                    lemma_run_start_bounds(lines, r, c);
                }
            }
        },
        CopyModeMove::WordEnd => {
            if spec_nonblank(lines, row, col) && col < spec_last_col(lines, row) && spec_nonblank(lines, row, col + 1) {
                lemma_extend_right_bounds(lines, row, col);
            } else {
                let from = spec_run_end(lines, row, col);
                lemma_first_nonblank_bounds(lines, row, from);
                let next = spec_clamp(lines, spec_next_word_start(lines, position));
                lemma_extend_right_bounds(lines, next.row as int, next.col as int);
            }
        },
        _ => {},
    }
}


/// The start of the next word is a word cell, unless no word follows: then it is the last cell.
pub proof fn lemma_next_word_start_lands_on_a_word(lines: Seq<Seq<ScreenCell>>, position: CopyModePosition)
    requires
        spec_fits(lines),
    ensures
        ({
            let next = spec_next_word_start(lines, position);
            spec_nonblank(lines, next.row as int, next.col as int) || next == spec_last_position(lines)
        }),
{
    let start = spec_clamp(lines, position);
    let from = spec_run_end(lines, start.row as int, start.col as int);
    lemma_first_nonblank_bounds(lines, start.row as int, from);
}

/// The start of the previous word is the first cell of a word, or the first cell of all.
pub proof fn lemma_previous_word_start_lands_on_a_word_start(lines: Seq<Seq<ScreenCell>>, position: CopyModePosition)
    requires
        spec_fits(lines),
    ensures
        ({
            let previous = spec_previous_word_start(lines, position);
            let row = previous.row as int;
            let col = previous.col as int;
            previous == spec_position(0, 0) || (spec_nonblank(lines, row, col) && (col == 0
                || !spec_nonblank(lines, row, col - 1)))
        }),
{
    let start = spec_clamp(lines, position);
    let row = start.row as int;
    let col = start.col as int;
    if !(col == 0 && row == 0) {
        let back = if col > 0 { (row, col - 1) } else { (row - 1, spec_last_col(lines, row - 1)) };
        lemma_last_nonblank_bounds(lines, back.0, back.1);
        if let Some((r, c)) = spec_last_nonblank_until(lines, back.0, back.1) {
            lemma_run_start_bounds(lines, r, c);
        }
    }
}

} // verus!
