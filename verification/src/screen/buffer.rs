use vstd::prelude::*;
use crate::size::TerminalSize;
use crate::screen::cell::{CellStyle, Rgba, ScreenCell, ScreenLine, ScreenSnapshot};

verus! {

/// A cursor position in absolute rows (history included) and columns.
#[derive(Clone, Copy, Debug, PartialEq, Eq)]
pub struct CursorPosition {
    pub row: usize,
    pub col: usize,
}

/// The cursor and the position that DECSC saved.
#[derive(Clone, Copy, Debug, PartialEq, Eq)]
pub struct Cursor {
    pub row: usize,
    pub col: usize,
    pub saved: Option<CursorPosition>,
}

/// Every row that has been written, the cursor, and the modes that shape editing.
#[derive(Debug)]
pub struct ScreenBuffer {
    pub cols: usize,
    pub rows: usize,
    pub lines: Vec<ScreenLine>,
    pub cursor: Cursor,
    pub pending_wrap: bool,
    pub style: CellStyle,
    pub cursor_color: Option<Rgba>,
    pub scroll_region: (usize, usize),
    pub scroll_region_active: bool,
    pub origin_mode: bool,
    pub insert_mode: bool,
    pub auto_wrap: bool,
    pub cursor_visible: bool,
    pub tab_stops: Vec<bool>,
}

/// The first row of the visible screen, given how many rows exist.
pub open spec fn spec_viewport_top(len: int, rows: int) -> int {
    if len > rows { len - rows } else { 0 }
}

/// One past the last row the cursor may reach: the bottom of the visible screen.
pub open spec fn spec_row_limit(len: int, rows: int) -> int {
    if len > rows { len } else { rows }
}

/// The default tab stops: every eighth column.
pub open spec fn spec_default_tab_stops(cols: int) -> Seq<bool> {
    Seq::new(cols as nat, |col: int| col % 8 == 0)
}

/// `after` is `before` brought to `size`: the rows and settings are kept, the scroll region
/// and the cursor are moved inside the new size, and new columns get default tab stops.
pub open spec fn spec_is_resized(before: ScreenBuffer, after: ScreenBuffer, size: TerminalSize) -> bool {
    let last = size.rows - 1;
    let limit = spec_row_limit(before.lines@.len() as int, size.rows as int);
    let top = if before.scroll_region.0 < size.rows { before.scroll_region.0 as int } else { last };
    &&& after.cols == size.cols
    &&& after.rows == size.rows
    &&& after.lines@ == before.lines@
    &&& after.scroll_region.0 == top
    &&& after.scroll_region.1 == if before.scroll_region.1 < top { top }
        else if before.scroll_region.1 < size.rows { before.scroll_region.1 as int } else { last }
    &&& after.tab_stops@ == Seq::new(size.cols as nat, |c: int| if c < before.cols { before.tab_stops@[c] } else { c % 8 == 0 })
    &&& after.cursor.col == if before.cursor.col < size.cols { before.cursor.col as int } else { size.cols - 1 }
    &&& after.cursor.row == if before.cursor.row < limit { before.cursor.row as int } else { limit - 1 }
    &&& after.cursor.saved == before.cursor.saved
    &&& after.style == before.style
    &&& after.pending_wrap == before.pending_wrap
    &&& after.cursor_visible == before.cursor_visible
    &&& after.cursor_color == before.cursor_color
    &&& after.scroll_region_active == before.scroll_region_active
    &&& after.origin_mode == before.origin_mode
    &&& after.insert_mode == before.insert_mode
    &&& after.auto_wrap == before.auto_wrap
}

/// `n` copies of a value.
pub open spec fn spec_repeat<T>(value: T, n: int) -> Seq<T> {
    Seq::new(n as nat, |_i: int| value)
}

/// The rows of a buffer as sequences of cells.
pub open spec fn spec_lines_view(lines: Seq<ScreenLine>) -> Seq<Seq<ScreenCell>> {
    lines.map_values(|l: ScreenLine| l@)
}

/// A buffer as a new screen of `cols` by `rows` has it: one empty row, the cursor at the
/// top left, the plain style, the whole screen as scroll region, and default tab stops.
pub open spec fn spec_is_fresh(b: ScreenBuffer, cols: usize, rows: usize) -> bool {
    &&& b.cols == cols
    &&& b.rows == rows
    &&& b.lines@.len() == 1
    &&& b.lines@[0]@.len() == 0
    &&& b.cursor == (Cursor { row: 0, col: 0, saved: None })
    &&& !b.pending_wrap
    &&& b.style == CellStyle::spec_plain()
    &&& b.cursor_color is None
    &&& b.scroll_region == (0usize, (rows - 1) as usize)
    &&& !b.scroll_region_active
    &&& !b.origin_mode
    &&& !b.insert_mode
    &&& b.auto_wrap
    &&& b.cursor_visible
    &&& b.tab_stops@ == spec_default_tab_stops(cols as int)
}

/// A copy of one row.
pub fn copy_line(line: &ScreenLine) -> (copy: ScreenLine)
    ensures
        copy@ == line@,
{
    let mut copy: ScreenLine = Vec::new();
    let mut i: usize = 0;
    while i < line.len()
        invariant
            i <= line@.len(),
            copy@ == line@.subrange(0, i as int),
        decreases line@.len() - i,
    {
        copy.push(line[i]);
        i = i + 1;
        assert(copy@ =~= line@.subrange(0, i as int));
    }
    assert(line@.subrange(0, line@.len() as int) =~= line@);
    copy
}

/// A copy of every row.
pub fn copy_lines(lines: &Vec<ScreenLine>) -> (copy: Vec<ScreenLine>)
    ensures
        spec_lines_view(copy@) == spec_lines_view(lines@),
{
    let mut copy: Vec<ScreenLine> = Vec::new();
    let mut i: usize = 0;
    while i < lines.len()
        invariant
            i <= lines@.len(),
            copy@.len() == i,
            forall|j: int| 0 <= j < i ==> #[trigger] copy@[j]@ == lines@[j]@,
        decreases lines@.len() - i,
    {
        let line = copy_line(&lines[i]);
        copy.push(line);
        i = i + 1;
    }
    assert(spec_lines_view(copy@) =~= spec_lines_view(lines@));
    copy
}

impl ScreenBuffer {
    pub open spec fn lines_view(&self) -> Seq<Seq<ScreenCell>> {
        spec_lines_view(self.lines@)
    }

    pub open spec fn viewport_top(&self) -> int {
        spec_viewport_top(self.lines@.len() as int, self.rows as int)
    }

    pub open spec fn row_limit(&self) -> int {
        spec_row_limit(self.lines@.len() as int, self.rows as int)
    }

    /// The invariant every buffer keeps between operations.
    pub open spec fn wf(&self) -> bool {
        &&& self.cols >= 1
        &&& self.rows >= 1
        &&& self.lines@.len() >= 1
        &&& self.tab_stops@.len() == self.cols
        &&& self.scroll_region.0 <= self.scroll_region.1
        &&& self.scroll_region.1 < self.rows
        &&& self.cursor.col < self.cols
        &&& self.cursor.row < self.row_limit()
    }

    /// Creates an empty buffer with the cursor at the top left; a zero dimension counts as one.
    pub fn new(size: TerminalSize) -> (buffer: ScreenBuffer)
        ensures
            buffer.wf(),
            spec_is_fresh(buffer, size.spec_at_least_one().cols, size.spec_at_least_one().rows),
    {
        let size = TerminalSize::new(size.cols, size.rows);
        let mut lines: Vec<ScreenLine> = Vec::new();
        lines.push(Vec::new());
        ScreenBuffer {
            cols: size.cols,
            rows: size.rows,
            lines,
            cursor: Cursor { row: 0, col: 0, saved: None },
            pending_wrap: false,
            style: CellStyle::plain(),
            cursor_color: None,
            scroll_region: (0, size.rows - 1),
            scroll_region_active: false,
            origin_mode: false,
            insert_mode: false,
            auto_wrap: true,
            cursor_visible: true,
            tab_stops: default_tab_stops(size.cols),
        }
    }
}

impl ScreenBuffer {
    /// Changes the grid size; the rows are kept, the cursor, the scroll region and
    /// the tab stops are brought inside the new size, and new columns get default stops.
    /// A zero dimension counts as one.
    pub fn resize(&mut self, size: TerminalSize)
        requires
            old(self).wf(),
        ensures
            final(self).wf(),
            spec_is_resized(*old(self), *final(self), size.spec_at_least_one()),
    {
        let size = TerminalSize::new(size.cols, size.rows);
        let ghost old_stops = self.tab_stops@;
        let old_cols = self.cols;
        self.cols = size.cols;
        self.rows = size.rows;
        let last_row = size.rows - 1;
        let top = if self.scroll_region.0 < size.rows { self.scroll_region.0 } else { last_row };
        let bottom = if self.scroll_region.1 < top { top } else if self.scroll_region.1 < size.rows { self.scroll_region.1 } else { last_row };
        self.scroll_region = (top, bottom);
        if self.cursor.col >= size.cols {
            self.cursor.col = size.cols - 1;
        }
        let limit = if self.lines.len() > size.rows { self.lines.len() } else { size.rows };
        if self.cursor.row >= limit {
            self.cursor.row = limit - 1;
        }
        let mut stops: Vec<bool> = Vec::new();
        let mut col: usize = 0;
        while col < size.cols
            invariant
                col <= size.cols,
                old_cols == old_stops.len(),
                self.tab_stops@ == old_stops,
                stops@ == Seq::new(col as nat, |c: int| if c < old_cols { old_stops[c] } else { c % 8 == 0 }),
            decreases size.cols - col,
        {
            if col < old_cols {
                stops.push(self.tab_stops[col]);
            } else {
                stops.push(col % 8 == 0);
            }
            col = col + 1;
            assert(stops@ =~= Seq::new(col as nat, |c: int| if c < old_cols { old_stops[c] } else { c % 8 == 0 }));
        }
        self.tab_stops = stops;
    }

    /// The rows and cursor as a renderer sees them.
    pub fn snapshot(&self, history_start: usize) -> (snapshot: ScreenSnapshot)
        ensures
            spec_lines_view(snapshot.lines@) == self.lines_view(),
            snapshot.cursor_row == self.cursor.row,
            snapshot.cursor_col == self.cursor.col,
            snapshot.cursor_color == self.cursor_color,
            snapshot.cursor_visible == self.cursor_visible,
            snapshot.history_start == history_start,
    {
        ScreenSnapshot {
            lines: copy_lines(&self.lines),
            cursor_row: self.cursor.row,
            cursor_col: self.cursor.col,
            cursor_color: self.cursor_color,
            cursor_visible: self.cursor_visible,
            history_start,
        }
    }

    pub fn cols(&self) -> (cols: usize)
        ensures
            cols == self.cols,
    {
        self.cols
    }

    pub fn rows(&self) -> (rows: usize)
        ensures
            rows == self.rows,
    {
        self.rows
    }

    /// Appends empty rows until the cursor row exists.
    pub fn ensure_cursor_line(&mut self)
        requires
            old(self).wf(),
        ensures
            final(self).wf(),
            final(self).cursor.row < final(self).lines@.len(),
            final(self).lines_view() == if old(self).cursor.row < old(self).lines@.len() { old(self).lines_view() }
                else { old(self).lines_view() + spec_repeat(Seq::<ScreenCell>::empty(), old(self).cursor.row + 1 - old(self).lines@.len()) },
            old(self).cursor.row >= old(self).lines@.len() ==> old(self).lines@.len() < old(self).rows,
            final(self).viewport_top() == old(self).viewport_top(),
            final(self).row_limit() == old(self).row_limit(),
            final(self).cols == old(self).cols,
            final(self).rows == old(self).rows,
            final(self).cursor == old(self).cursor,
            final(self).pending_wrap == old(self).pending_wrap,
            final(self).style == old(self).style,
            final(self).cursor_color == old(self).cursor_color,
            final(self).scroll_region == old(self).scroll_region,
            final(self).scroll_region_active == old(self).scroll_region_active,
            final(self).origin_mode == old(self).origin_mode,
            final(self).insert_mode == old(self).insert_mode,
            final(self).auto_wrap == old(self).auto_wrap,
            final(self).cursor_visible == old(self).cursor_visible,
            final(self).tab_stops@ == old(self).tab_stops@,
    {
        let ghost start = self.lines_view();
        let ghost start_len = self.lines@.len();
        while self.lines.len() <= self.cursor.row
            invariant
                old(self).wf(),
                self.cols == old(self).cols,
                self.rows == old(self).rows,
                self.cursor == old(self).cursor,
                self.tab_stops@ == old(self).tab_stops@,
                self.scroll_region == old(self).scroll_region,
                start == old(self).lines_view(),
                start_len == old(self).lines@.len(),
                start_len <= self.lines@.len(),
                self.lines@.len() <= if old(self).cursor.row < start_len { start_len as int } else { old(self).cursor.row + 1 },
                self.lines_view() == start + spec_repeat(Seq::<ScreenCell>::empty(), self.lines@.len() - start_len),
                self.pending_wrap == old(self).pending_wrap,
                self.style == old(self).style,
                self.cursor_color == old(self).cursor_color,
                self.scroll_region_active == old(self).scroll_region_active,
                self.origin_mode == old(self).origin_mode,
                self.insert_mode == old(self).insert_mode,
                self.auto_wrap == old(self).auto_wrap,
                self.cursor_visible == old(self).cursor_visible,
            decreases self.cursor.row + 1 - self.lines@.len(),
        {
            let ghost prev = self.lines@;
            let empty: ScreenLine = Vec::new();
            assert(empty@ == Seq::<ScreenCell>::empty());
            self.lines.push(empty);
            assert(self.lines@ == prev.push(empty));
            assert(spec_lines_view(self.lines@) =~= spec_lines_view(prev).push(Seq::<ScreenCell>::empty()));
            assert(self.lines_view() =~= start + spec_repeat(Seq::<ScreenCell>::empty(), self.lines@.len() - start_len));
        }
        assert(self.lines_view() =~= if old(self).cursor.row < old(self).lines@.len() { old(self).lines_view() }
                else { old(self).lines_view() + spec_repeat(Seq::<ScreenCell>::empty(), old(self).cursor.row + 1 - old(self).lines@.len()) });
    }

    /// The first row of the visible screen.
    pub fn get_viewport_top(&self) -> (top: usize)
        ensures
            top == self.viewport_top(),
    {
        if self.lines.len() > self.rows { self.lines.len() - self.rows } else { 0 }
    }

    /// Inserts a cell into a row, shifting the rest of the row right.
    pub fn insert_cell(&mut self, row: usize, col: usize, cell: ScreenCell)
        requires
            row < old(self).lines@.len(),
            col <= old(self).lines@[row as int]@.len(),
        ensures
            final(self).lines_view() == old(self).lines_view().update(row as int, old(self).lines_view()[row as int].insert(col as int, cell)),
            final(self).lines@.len() == old(self).lines@.len(),
            final(self).cols == old(self).cols && final(self).rows == old(self).rows && final(self).cursor == old(self).cursor,
    {
        let line = &mut self.lines[row];
        line.insert(col, cell);
        assert(self.lines_view() =~= old(self).lines_view().update(row as int, old(self).lines_view()[row as int].insert(col as int, cell)));
    }

    /// Replaces one cell.
    pub fn replace_cell(&mut self, row: usize, col: usize, cell: ScreenCell)
        requires
            row < old(self).lines@.len(),
            col < old(self).lines@[row as int]@.len(),
        ensures
            final(self).lines_view() == old(self).lines_view().update(row as int, old(self).lines_view()[row as int].update(col as int, cell)),
            final(self).lines@.len() == old(self).lines@.len(),
            final(self).cols == old(self).cols && final(self).rows == old(self).rows && final(self).cursor == old(self).cursor,
    {
        let line = &mut self.lines[row];
        line.set(col, cell);
        assert(self.lines_view() =~= old(self).lines_view().update(row as int, old(self).lines_view()[row as int].update(col as int, cell)));
    }

    /// Appends a cell to a row.
    pub fn push_cell(&mut self, row: usize, cell: ScreenCell)
        requires
            row < old(self).lines@.len(),
        ensures
            final(self).lines_view() == old(self).lines_view().update(row as int, old(self).lines_view()[row as int].push(cell)),
            final(self).lines@.len() == old(self).lines@.len(),
            final(self).cols == old(self).cols && final(self).rows == old(self).rows && final(self).cursor == old(self).cursor,
    {
        let line = &mut self.lines[row];
        line.push(cell);
        assert(self.lines_view() =~= old(self).lines_view().update(row as int, old(self).lines_view()[row as int].push(cell)));
    }

    /// The number of cells in a row.
    pub fn line_len(&self, row: usize) -> (len: usize)
        requires
            row < self.lines@.len(),
        ensures
            len == self.lines@[row as int]@.len(),
    {
        self.lines[row].len()
    }

    /// Keeps only the first cells of a row.
    pub fn truncate_line(&mut self, row: usize, cells_to_keep: usize)
        requires
            row < old(self).lines@.len(),
        ensures
            final(self).lines_view() == old(self).lines_view().update(row as int,
                if cells_to_keep <= old(self).lines_view()[row as int].len() { old(self).lines_view()[row as int].subrange(0, cells_to_keep as int) }
                else { old(self).lines_view()[row as int] }),
            final(self).lines@.len() == old(self).lines@.len(),
            final(self).cols == old(self).cols && final(self).rows == old(self).rows && final(self).cursor == old(self).cursor,
    {
        let line = &mut self.lines[row];
        line.truncate(cells_to_keep);
        assert(self.lines_view() =~= old(self).lines_view().update(row as int,
                if cells_to_keep <= old(self).lines_view()[row as int].len() { old(self).lines_view()[row as int].subrange(0, cells_to_keep as int) }
                else { old(self).lines_view()[row as int] }));
    }
}

/// Tab stops at every eighth column.
pub fn default_tab_stops(cols: usize) -> (stops: Vec<bool>)
    ensures
        stops@ == spec_default_tab_stops(cols as int),
{
    let mut stops: Vec<bool> = Vec::new();
    let mut col: usize = 0;
    while col < cols
        invariant
            col <= cols,
            stops@ == spec_default_tab_stops(col as int),
        decreases cols - col,
    {
        stops.push(col % 8 == 0);
        col = col + 1;
        assert(stops@ =~= spec_default_tab_stops(col as int));
    }
    stops
}

} // verus!
