//! The editing operations of the terminal screen, driven by decoded control sequences.
use vstd::prelude::*;
use crate::size::TerminalSize;
use crate::mouse::MouseMode;
use crate::width::{cell_width, spec_cell_width};
use crate::screen::sgr;
use crate::screen::control::{decode_csi, decode_esc, decode_osc, spec_csi, spec_esc, spec_groups, spec_osc};
use crate::screen::cell::{CellStyle, ScreenCell, ScreenLine, ScreenSnapshot};
use crate::screen::control::{CsiMessage, EraseMode, EscMessage, OscMessage, TabClearMode};
use crate::screen::line::{
    fill_range, insert_cells, pad_line, remove_cells, spec_fill, spec_insert, spec_pad, spec_remove, spec_truncate,
};
use crate::screen::buffer::{
    Cursor, CursorPosition, ScreenBuffer, spec_is_fresh, spec_is_resized, spec_lines_view, spec_repeat, spec_row_limit, spec_viewport_top,
};

verus! {

/// How many rows of scrollback the primary screen keeps above the visible screen.
pub const MAX_HISTORY: usize = 10000;

/// The terminal screen: the active buffer, the primary buffer while the alternate
/// screen is shown, and state shared by both.
pub struct Screen {
    pub screen_buffer: ScreenBuffer,
    pub primary_screen: Option<ScreenBuffer>,
    pub last_printed: Option<char>,
    pub mouse: MouseMode,
    pub history_start: usize,
}

impl ScreenBuffer {
    /// Every setting except the rows, the cursor and the pending wrap agrees.
    pub open spec fn same_settings(&self, o: &ScreenBuffer) -> bool {
        &&& self.cols == o.cols
        &&& self.rows == o.rows
        &&& self.style == o.style
        &&& self.cursor_color == o.cursor_color
        &&& self.scroll_region == o.scroll_region
        &&& self.scroll_region_active == o.scroll_region_active
        &&& self.origin_mode == o.origin_mode
        &&& self.insert_mode == o.insert_mode
        &&& self.auto_wrap == o.auto_wrap
        &&& self.cursor_visible == o.cursor_visible
        &&& self.tab_stops@ == o.tab_stops@
    }

    /// The absolute rows of the scroll region.
    pub open spec fn region_top(&self) -> int {
        self.viewport_top() + self.scroll_region.0
    }

    pub open spec fn region_bottom(&self) -> int {
        self.viewport_top() + self.scroll_region.1
    }
}

/// The rows after scrolling `k` rows of the region `top..=bottom` up: the top rows leave
/// and empty rows enter at the bottom.
pub open spec fn spec_scrolled_up(v: Seq<Seq<ScreenCell>>, top: int, bottom: int, k: int) -> Seq<Seq<ScreenCell>> {
    v.subrange(0, top) + v.subrange(top + k, bottom + 1) + spec_repeat(Seq::<ScreenCell>::empty(), k)
        + v.subrange(bottom + 1, v.len() as int)
}

/// The rows after scrolling `k` rows of the region `top..=bottom` down: the bottom rows
/// leave and empty rows enter at the top.
pub open spec fn spec_scrolled_down(v: Seq<Seq<ScreenCell>>, top: int, bottom: int, k: int) -> Seq<Seq<ScreenCell>> {
    v.subrange(0, top) + spec_repeat(Seq::<ScreenCell>::empty(), k) + v.subrange(top, bottom + 1 - k)
        + v.subrange(bottom + 1, v.len() as int)
}

impl Screen {
    pub open spec fn wf(&self) -> bool {
        &&& self.screen_buffer.wf()
        &&& match self.primary_screen {
            Some(p) => p.wf() && p.cols == self.screen_buffer.cols && p.rows == self.screen_buffer.rows,
            None => true,
        }
    }

    /// The active buffer.
    pub open spec fn buf(&self) -> ScreenBuffer {
        self.screen_buffer
    }

    /// Nothing but the active buffer changed.
    pub open spec fn same_outside(&self, o: &Screen) -> bool {
        &&& self.primary_screen == o.primary_screen
        &&& self.last_printed == o.last_printed
        &&& self.mouse == o.mouse
        &&& self.history_start == o.history_start
    }

    /// A screen showing an empty primary buffer; a zero dimension counts as one.
    pub fn new(size: TerminalSize) -> (screen: Screen)
        ensures
            screen.wf(),
            spec_is_fresh(screen.buf(), size.spec_at_least_one().cols, size.spec_at_least_one().rows),
            screen.primary_screen is None,
            screen.last_printed is None,
            screen.mouse == (MouseMode { tracking: 0, sgr: false }),
            screen.history_start == 0,
    {
        Screen {
            screen_buffer: ScreenBuffer::new(size),
            primary_screen: None,
            last_printed: None,
            mouse: MouseMode::default(),
            history_start: 0,
        }
    }

    /// Resizes the active buffer and, while the alternate screen is shown, the primary one;
    /// a zero dimension counts as one.
    pub fn resize(&mut self, size: TerminalSize)
        requires
            old(self).wf(),
        ensures
            final(self).wf(),
            did_resize(*old(self), *final(self), size),
    {
        self.screen_buffer.resize(size);
        if let Some(mut primary) = self.primary_screen.take() {
            primary.resize(size);
            self.primary_screen = Some(primary);
        }
    }

    /// The mouse reporting that the application asked for.
    pub fn mouse_mode(&self) -> (mode: MouseMode)
        ensures
            mode == self.mouse,
    {
        self.mouse
    }

    /// What a renderer needs to draw the active buffer.
    pub fn snapshot(&self) -> (snapshot: ScreenSnapshot)
        ensures
            spec_lines_view(snapshot.lines@) == self.buf().lines_view(),
            snapshot.cursor_row == self.buf().cursor.row,
            snapshot.cursor_col == self.buf().cursor.col,
            snapshot.cursor_color == self.buf().cursor_color,
            snapshot.cursor_visible == self.buf().cursor_visible,
            snapshot.history_start == self.history_start,
    {
        self.screen_buffer.snapshot(self.history_start)
    }

    /// Moves the cursor to a column of its row, the column kept inside the grid.
    pub fn move_cursor_to_col(&mut self, col: usize)
        requires
            old(self).wf(),
        ensures
            final(self).wf(),
            did_move_cursor_to_col(*old(self), *final(self), col),
    {
        let last = self.screen_buffer.cols - 1;
        self.screen_buffer.cursor.col = if col < self.screen_buffer.cols { col } else { last };
        self.screen_buffer.pending_wrap = false;
    }

    /// Moves the cursor to the first column.
    pub fn carriage_return(&mut self)
        requires
            old(self).wf(),
        ensures
            final(self).wf(),
            did_carriage_return(*old(self), *final(self)),
    {
        self.screen_buffer.cursor.col = 0;
        self.screen_buffer.pending_wrap = false;
    }

    /// Moves the cursor right, stopping at the last column.
    pub fn move_cursor_forward(&mut self, amount: usize)
        requires
            old(self).wf(),
        ensures
            final(self).wf(),
            did_move_cursor_forward(*old(self), *final(self), amount),
    {
        let next_col = self.screen_buffer.cursor.col.saturating_add(amount);
        self.move_cursor_to_col(next_col);
    }

    /// Moves the cursor left, stopping at the first column.
    pub fn move_cursor_backward(&mut self, amount: usize)
        requires
            old(self).wf(),
        ensures
            final(self).wf(),
            did_move_cursor_backward(*old(self), *final(self), amount),
    {
        self.screen_buffer.cursor.col = self.screen_buffer.cursor.col.saturating_sub(amount);
        self.screen_buffer.pending_wrap = false;
    }

    /// The absolute rows of the scroll region; rows are appended until both exist.
    pub fn scroll_region_bounds(&mut self) -> (bounds: (usize, usize))
        requires
            old(self).wf(),
        ensures
            final(self).wf(),
            bounds.0 == old(self).buf().region_top(),
            bounds.1 == old(self).buf().region_bottom(),
            bounds.0 <= bounds.1,
            bounds.1 < final(self).buf().lines@.len(),
            final(self).buf().viewport_top() == old(self).buf().viewport_top(),
            final(self).buf().row_limit() == old(self).buf().row_limit(),
            final(self).buf().lines_view() == if old(self).buf().lines@.len() > bounds.1 { old(self).buf().lines_view() }
                else { old(self).buf().lines_view() + spec_repeat(Seq::<ScreenCell>::empty(), bounds.1 + 1 - old(self).buf().lines@.len()) },
            final(self).buf().cursor == old(self).buf().cursor,
            final(self).buf().pending_wrap == old(self).buf().pending_wrap,
            final(self).buf().same_settings(&old(self).buf()),
            final(self).same_outside(old(self)),
    {
        let viewport_top = self.screen_buffer.get_viewport_top();
        let line_count = self.screen_buffer.lines.len();
        assert(viewport_top + self.screen_buffer.scroll_region.1 < spec_row_limit(line_count as int, self.screen_buffer.rows as int));
        let top = viewport_top + self.screen_buffer.scroll_region.0;
        let bottom = viewport_top + self.screen_buffer.scroll_region.1;
        let ghost start = self.screen_buffer.lines_view();
        let ghost start_len = self.screen_buffer.lines@.len();
        while self.screen_buffer.lines.len() <= bottom
            invariant
                old(self).wf(),
                self.screen_buffer.same_settings(&old(self).buf()),
                self.screen_buffer.cursor == old(self).buf().cursor,
                self.screen_buffer.pending_wrap == old(self).buf().pending_wrap,
                self.same_outside(old(self)),
                bottom == old(self).buf().region_bottom(),
                start == old(self).buf().lines_view(),
                start_len == old(self).buf().lines@.len(),
                start_len <= self.screen_buffer.lines@.len(),
                self.screen_buffer.lines@.len() <= if bottom < start_len { start_len as int } else { bottom + 1 },
                self.screen_buffer.lines_view() == start + spec_repeat(Seq::<ScreenCell>::empty(), self.screen_buffer.lines@.len() - start_len),
            decreases bottom + 1 - self.screen_buffer.lines@.len(),
        {
            let ghost prev = self.screen_buffer.lines@;
            let empty: ScreenLine = Vec::new();
            self.screen_buffer.lines.push(empty);
            assert(spec_lines_view(self.screen_buffer.lines@) =~= spec_lines_view(prev).push(Seq::<ScreenCell>::empty()));
            assert(self.screen_buffer.lines_view() =~= start + spec_repeat(Seq::<ScreenCell>::empty(), self.screen_buffer.lines@.len() - start_len));
        }
        (top, bottom)
    }

    /// Moves rows `top + count..=bottom` up to `top`, emptying the last `count` rows of the range.
    fn rotate_up(&mut self, top: usize, bottom: usize, count: usize)
        requires
            old(self).wf(),
            top <= bottom,
            bottom < old(self).buf().lines@.len(),
            count <= bottom - top + 1,
        ensures
            final(self).wf(),
            final(self).buf().lines_view() == spec_scrolled_up(old(self).buf().lines_view(), top as int, bottom as int, count as int),
            final(self).buf().cursor == old(self).buf().cursor,
            final(self).buf().pending_wrap == old(self).buf().pending_wrap,
            final(self).buf().same_settings(&old(self).buf()),
            final(self).same_outside(old(self)),
    {
        let ghost grown = self.screen_buffer.lines_view();
        let mut i: usize = 0;
        assert(spec_scrolled_up(grown, top as int, bottom as int, 0) =~= grown);
        while i < count
            invariant
                old(self).wf(),
                top <= bottom,
                bottom < grown.len(),
                count <= bottom - top + 1,
                i <= count,
                grown == old(self).buf().lines_view(),
                self.screen_buffer.lines@.len() == grown.len(),
                self.screen_buffer.lines_view() == spec_scrolled_up(grown, top as int, bottom as int, i as int),
                self.screen_buffer.same_settings(&old(self).buf()),
                self.screen_buffer.cursor == old(self).buf().cursor,
                self.screen_buffer.pending_wrap == old(self).buf().pending_wrap,
                self.same_outside(old(self)),
            decreases count - i,
        {
            let ghost before = self.screen_buffer.lines@;
            let _removed = self.screen_buffer.lines.remove(top);
            let ghost middle = self.screen_buffer.lines@;
            assert(spec_lines_view(middle) =~= spec_lines_view(before).remove(top as int));
            let empty: ScreenLine = Vec::new();
            self.screen_buffer.lines.insert(bottom, empty);
            assert(spec_lines_view(self.screen_buffer.lines@) =~= spec_lines_view(middle).insert(bottom as int, Seq::<ScreenCell>::empty()));
            assert(self.screen_buffer.lines_view() =~= spec_scrolled_up(grown, top as int, bottom as int, i + 1));
            i = i + 1;
        }
    }

    /// Moves rows `top..=bottom - count` down by `count`, emptying the first `count` rows of the range.
    fn rotate_down(&mut self, top: usize, bottom: usize, count: usize)
        requires
            old(self).wf(),
            top <= bottom,
            bottom < old(self).buf().lines@.len(),
            count <= bottom - top + 1,
        ensures
            final(self).wf(),
            final(self).buf().lines_view() == spec_scrolled_down(old(self).buf().lines_view(), top as int, bottom as int, count as int),
            final(self).buf().cursor == old(self).buf().cursor,
            final(self).buf().pending_wrap == old(self).buf().pending_wrap,
            final(self).buf().same_settings(&old(self).buf()),
            final(self).same_outside(old(self)),
    {
        let ghost grown = self.screen_buffer.lines_view();
        let mut i: usize = 0;
        assert(spec_scrolled_down(grown, top as int, bottom as int, 0) =~= grown);
        while i < count
            invariant
                old(self).wf(),
                top <= bottom,
                bottom < grown.len(),
                count <= bottom - top + 1,
                i <= count,
                grown == old(self).buf().lines_view(),
                self.screen_buffer.lines@.len() == grown.len(),
                self.screen_buffer.lines_view() == spec_scrolled_down(grown, top as int, bottom as int, i as int),
                self.screen_buffer.same_settings(&old(self).buf()),
                self.screen_buffer.cursor == old(self).buf().cursor,
                self.screen_buffer.pending_wrap == old(self).buf().pending_wrap,
                self.same_outside(old(self)),
            decreases count - i,
        {
            let ghost before = self.screen_buffer.lines@;
            let _removed = self.screen_buffer.lines.remove(bottom);
            let ghost middle = self.screen_buffer.lines@;
            assert(spec_lines_view(middle) =~= spec_lines_view(before).remove(bottom as int));
            let empty: ScreenLine = Vec::new();
            self.screen_buffer.lines.insert(top, empty);
            assert(spec_lines_view(self.screen_buffer.lines@) =~= spec_lines_view(middle).insert(top as int, Seq::<ScreenCell>::empty()));
            assert(self.screen_buffer.lines_view() =~= spec_scrolled_down(grown, top as int, bottom as int, i + 1));
            i = i + 1;
        }
    }

    /// Scrolls the scroll region up by `amount` rows, at most its height.
    pub fn scroll_up(&mut self, amount: usize)
        requires
            old(self).wf(),
        ensures
            final(self).wf(),
            did_scroll_up(*old(self), *final(self), amount),
    {
        let (top, bottom) = self.scroll_region_bounds();
        let count = if amount < bottom - top + 1 { amount } else { bottom - top + 1 };
        self.rotate_up(top, bottom, count);
        self.screen_buffer.pending_wrap = false;
    }

    /// Scrolls the scroll region down by `amount` rows, at most its height.
    pub fn scroll_down(&mut self, amount: usize)
        requires
            old(self).wf(),
        ensures
            final(self).wf(),
            did_scroll_down(*old(self), *final(self), amount),
    {
        let (top, bottom) = self.scroll_region_bounds();
        let count = if amount < bottom - top + 1 { amount } else { bottom - top + 1 };
        self.rotate_down(top, bottom, count);
        self.screen_buffer.pending_wrap = false;
    }

    /// Inserts `amount` empty rows at the cursor row, pushing the rows below it down
    /// inside the scroll region; nothing happens outside the region.
    pub fn insert_lines(&mut self, amount: usize)
        requires
            old(self).wf(),
        ensures
            final(self).wf(),
            did_insert_lines(*old(self), *final(self), amount),
    {
        let (top, bottom) = self.scroll_region_bounds();
        let row = self.screen_buffer.cursor.row;
        if row < top || row > bottom {
            return;
        }
        let count = if amount < bottom - row + 1 { amount } else { bottom - row + 1 };
        self.rotate_down(row, bottom, count);
        self.screen_buffer.pending_wrap = false;
    }

    /// Deletes `amount` rows at the cursor row, pulling the rows below it up inside the
    /// scroll region; nothing happens outside the region.
    pub fn delete_lines(&mut self, amount: usize)
        requires
            old(self).wf(),
        ensures
            final(self).wf(),
            did_delete_lines(*old(self), *final(self), amount),
    {
        let (top, bottom) = self.scroll_region_bounds();
        let row = self.screen_buffer.cursor.row;
        if row < top || row > bottom {
            return;
        }
        let count = if amount < bottom - row + 1 { amount } else { bottom - row + 1 };
        self.rotate_up(row, bottom, count);
        self.screen_buffer.pending_wrap = false;
    }

    /// The row that a row number relative to the screen (or, in origin mode, to the
    /// scroll region) names, relative to the screen and kept inside it.
    pub fn cursor_row_from_viewport(&self, row: usize) -> (r: usize)
        requires
            self.wf(),
        ensures
            r == spec_row_from_viewport(self.buf(), row as int),
            r < self.buf().rows,
    {
        let last = self.screen_buffer.rows - 1;
        let row = if row < last { row } else { last };
        if self.screen_buffer.origin_mode {
            let (top, bottom) = self.screen_buffer.scroll_region;
            let shifted = top.saturating_add(row);
            if shifted < bottom { shifted } else { bottom }
        } else {
            row
        }
    }

    /// Moves the cursor to a position relative to the screen, the column kept inside the grid.
    pub fn move_cursor_to(&mut self, position: CursorPosition)
        requires
            old(self).wf(),
            position.row < old(self).buf().rows,
        ensures
            final(self).wf(),
            did_move_cursor_to(*old(self), *final(self), position),
    {
        let viewport_top = self.screen_buffer.get_viewport_top();
        let line_count = self.screen_buffer.lines.len();
        assert(viewport_top + position.row < spec_row_limit(line_count as int, self.screen_buffer.rows as int));
        self.screen_buffer.cursor.row = viewport_top + position.row;
        let last = self.screen_buffer.cols - 1;
        self.screen_buffer.cursor.col = if position.col < self.screen_buffer.cols { position.col } else { last };
        self.screen_buffer.pending_wrap = false;
    }

    /// Moves the cursor to a row relative to the screen, keeping its column.
    pub fn move_cursor_to_row_absolute(&mut self, row: usize)
        requires
            old(self).wf(),
        ensures
            final(self).wf(),
            did_move_cursor_to_row_absolute(*old(self), *final(self), row),
    {
        let row = self.cursor_row_from_viewport(row);
        let viewport_top = self.screen_buffer.get_viewport_top();
        let line_count = self.screen_buffer.lines.len();
        assert(viewport_top + row < spec_row_limit(line_count as int, self.screen_buffer.rows as int));
        self.screen_buffer.cursor.row = viewport_top + row;
        self.screen_buffer.pending_wrap = false;
        self.screen_buffer.ensure_cursor_line();
    }

    /// Moves the cursor up, stopping at the top of the screen (of the scroll region in
    /// origin mode) unless it already is above it.
    pub fn move_cursor_up(&mut self, amount: usize)
        requires
            old(self).wf(),
        ensures
            final(self).wf(),
            did_move_cursor_up(*old(self), *final(self), amount),
    {
        let bound = if self.screen_buffer.origin_mode {
            let (top, _) = self.scroll_region_bounds();
            top
        } else {
            self.screen_buffer.get_viewport_top()
        };
        let row = self.screen_buffer.cursor.row;
        let lower = if bound < row { bound } else { row };
        let up = row.saturating_sub(amount);
        self.screen_buffer.cursor.row = if up > lower { up } else { lower };
        self.screen_buffer.pending_wrap = false;
    }

    /// Moves the cursor down, stopping at the bottom of the screen (of the scroll region
    /// in origin mode) unless it already is below it; the row is created if needed.
    pub fn move_cursor_down(&mut self, amount: usize)
        requires
            old(self).wf(),
        ensures
            final(self).wf(),
            did_move_cursor_down(*old(self), *final(self), amount),
    {
        let bound = if self.screen_buffer.origin_mode {
            let (_, bottom) = self.scroll_region_bounds();
            bottom
        } else {
            let line_count = self.screen_buffer.lines.len();
            if line_count > self.screen_buffer.rows { line_count - 1 } else { self.screen_buffer.rows - 1 }
        };
        let row = self.screen_buffer.cursor.row;
        let upper = if bound > row { bound } else { row };
        let down = row.saturating_add(amount);
        self.screen_buffer.cursor.row = if down < upper { down } else { upper };
        self.screen_buffer.pending_wrap = false;
        self.screen_buffer.ensure_cursor_line();
    }

    /// Sets the scroll region from one-based margins and homes the cursor.
    pub fn set_scroll_region(&mut self, top: usize, bottom: Option<usize>)
        requires
            old(self).wf(),
        ensures
            final(self).wf(),
            did_set_scroll_region(*old(self), *final(self), top, bottom),
    {
        let rows = self.screen_buffer.rows;
        let last = rows - 1;
        let t0 = top.saturating_sub(1);
        let t = if t0 < last { t0 } else { last };
        let raw = match bottom { Some(b) => b, None => rows };
        let b0 = raw.saturating_sub(1);
        let b = if b0 < t { t } else if b0 < last { b0 } else { last };
        self.screen_buffer.scroll_region = (t, b);
        self.screen_buffer.scroll_region_active = true;
        self.move_cursor_to(CursorPosition { row: 0, col: 0 });
    }
}

impl Screen {
    /// Creates the cursor row and pads it with plain blanks up to the cursor column.
    pub fn ensure_cursor_col(&mut self)
        requires
            old(self).wf(),
        ensures
            final(self).wf(),
            final(self).buf().cursor.row < final(self).buf().lines@.len(),
            final(self).buf().lines_view() == spec_grow_to(old(self).buf().lines_view(), old(self).buf().cursor.row as int).update(
                old(self).buf().cursor.row as int,
                spec_pad(spec_grow_to(old(self).buf().lines_view(), old(self).buf().cursor.row as int)[old(self).buf().cursor.row as int],
                    old(self).buf().cursor.col as int, ScreenCell::spec_blank(CellStyle::spec_plain()))),
            final(self).buf().cursor == old(self).buf().cursor,
            final(self).buf().pending_wrap == old(self).buf().pending_wrap,
            final(self).buf().same_settings(&old(self).buf()),
            final(self).buf().viewport_top() == old(self).buf().viewport_top(),
            final(self).same_outside(old(self)),
    {
        self.screen_buffer.ensure_cursor_line();
        let row = self.screen_buffer.cursor.row;
        let col = self.screen_buffer.cursor.col;
        let ghost before = self.screen_buffer.lines@;
        let line = &mut self.screen_buffer.lines[row];
        pad_line(line, col, ScreenCell::blank(CellStyle::plain()));
        assert(self.screen_buffer.lines_view() =~= spec_lines_view(before).update(row as int,
            spec_pad(spec_lines_view(before)[row as int], col as int, ScreenCell::spec_blank(CellStyle::spec_plain()))));
    }

    /// Inserts blanks in the current style at the cursor, shifting the rest of the row
    /// right; cells pushed past the last column are lost.
    pub fn insert_blank_characters(&mut self, amount: usize)
        requires
            old(self).wf(),
        ensures
            final(self).wf(),
            did_insert_blank_characters(*old(self), *final(self), amount),
    {
        self.ensure_cursor_col();
        let row = self.screen_buffer.cursor.row;
        let col = self.screen_buffer.cursor.col;
        let cols = self.screen_buffer.cols;
        let blank = ScreenCell::blank(self.screen_buffer.style);
        let count = if amount < cols - col { amount } else { cols - col };
        let ghost before = self.screen_buffer.lines@;
        assert(spec_lines_view(before)[row as int] == before[row as int]@);
        assert(before[row as int]@.len() >= col);
        let line = &mut self.screen_buffer.lines[row];
        insert_cells(line, col, count, blank);
        let ghost inserted = line@;
        assert(spec_truncate(inserted, cols as int) =~= if cols <= inserted.len() { inserted.subrange(0, cols as int) } else { inserted });
        line.truncate(cols);
        assert(self.screen_buffer.lines_view() =~= spec_lines_view(before).update(row as int,
            spec_truncate(spec_insert(spec_lines_view(before)[row as int], col as int, count as int, blank), cols as int)));
        proof {
            let ob = old(self).buf();
            let grown = spec_grow_to(ob.lines_view(), row as int);
            let padded = spec_pad(grown[row as int], col as int, ScreenCell::spec_blank(CellStyle::spec_plain()));
            assert(self.screen_buffer.lines_view() =~= grown.update(row as int,
                spec_truncate(spec_insert(padded, col as int, count as int, ScreenCell::spec_blank(ob.style)), cols as int)));
        }
        self.screen_buffer.pending_wrap = false;
    }

    /// Deletes cells at the cursor, pulling the rest of the row left.
    pub fn delete_characters(&mut self, amount: usize)
        requires
            old(self).wf(),
        ensures
            final(self).wf(),
            did_delete_characters(*old(self), *final(self), amount),
    {
        self.screen_buffer.ensure_cursor_line();
        let row = self.screen_buffer.cursor.row;
        let col = self.screen_buffer.cursor.col;
        let len = self.screen_buffer.lines[row].len();
        if col >= len {
            return;
        }
        let count = if amount < len - col { amount } else { len - col };
        let ghost before = self.screen_buffer.lines@;
        let line = &mut self.screen_buffer.lines[row];
        remove_cells(line, col, count);
        assert(self.screen_buffer.lines_view() =~= spec_lines_view(before).update(row as int,
            spec_remove(spec_lines_view(before)[row as int], col as int, count as int)));
    }

    /// Moves the cursor one column left and deletes the cell it lands on.
    pub fn backspace(&mut self)
        requires
            old(self).wf(),
        ensures
            final(self).wf(),
            did_backspace(*old(self), *final(self)),
    {
        self.screen_buffer.pending_wrap = false;
        if self.screen_buffer.cursor.col == 0 {
            return;
        }
        self.screen_buffer.cursor.col = self.screen_buffer.cursor.col - 1;
        let col = self.screen_buffer.cursor.col;
        let row = self.screen_buffer.cursor.row;
        if row < self.screen_buffer.lines.len() && col < self.screen_buffer.lines[row].len() {
            let ghost before = self.screen_buffer.lines@;
            let line = &mut self.screen_buffer.lines[row];
            line.remove(col);
            assert(self.screen_buffer.lines_view() =~= spec_lines_view(before).update(row as int, spec_lines_view(before)[row as int].remove(col as int)));
        }
    }

    /// Blanks cells from the cursor on without moving anything; a two-column character
    /// cut by either end is blanked whole. With a background color set, the range is
    /// colored even where the row had no cells yet.
    #[verifier::rlimit(40)]
    pub fn erase_characters(&mut self, amount: usize)
        requires
            old(self).wf(),
        ensures
            final(self).wf(),
            did_erase_characters(*old(self), *final(self), amount),
    {
        self.screen_buffer.ensure_cursor_line();
        let row = self.screen_buffer.cursor.row;
        let col = self.screen_buffer.cursor.col;
        let cols = self.screen_buffer.cols;
        let colored = self.screen_buffer.style.bg_rgba.is_some();
        let erased = ScreenCell::blank(self.screen_buffer.style.erase_style());
        let len = self.screen_buffer.lines[row].len();
        if amount == 0 || (!colored && col >= len) {
            return;
        }
        let reach = if amount < cols - col { col + amount } else { cols };
        let ghost before = self.screen_buffer.lines@;
        let line = &mut self.screen_buffer.lines[row];
        if colored {
            pad_line(line, reach, ScreenCell::blank(CellStyle::plain()));
        }
        let ghost padded = line@;
        let line_len = line.len();
        let mut end = if reach < line_len { reach } else { line_len };
        let mut start = col;
        if line[start].is_wide_continuation && start > 0 {
            start = start - 1;
        }
        if end < line_len && line[end].is_wide_continuation {
            end = end + 1;
        }
        fill_range(line, start, end, erased);
        assert(self.screen_buffer.lines_view() =~= spec_lines_view(before).update(row as int,
            spec_fill(padded, start as int, end as int, erased)));
    }

    /// Erases part of the cursor row; see `spec_erase_line`.
    pub fn erase_line(&mut self, mode: EraseMode)
        requires
            old(self).wf(),
        ensures
            final(self).wf(),
            did_erase_line(*old(self), *final(self), mode),
    {
        self.screen_buffer.ensure_cursor_line();
        let row = self.screen_buffer.cursor.row;
        let col = self.screen_buffer.cursor.col;
        let cols = self.screen_buffer.cols;
        let style = self.screen_buffer.style;
        let ghost before = self.screen_buffer.lines@;
        let line = &mut self.screen_buffer.lines[row];
        erase_in_line(line, col, cols, style, mode);
        assert(self.screen_buffer.lines_view() =~= spec_lines_view(before).update(row as int,
            spec_erase_line(spec_lines_view(before)[row as int], col as int, cols as int, style, mode)));
    }
}

impl Screen {
    /// Replaces rows `from..to` by `spec_cleared_row` (`keep_len` false) or `spec_blanked_row` (`keep_len` true).
    fn clear_rows(&mut self, from: usize, to: usize, keep_len: bool)
        requires
            old(self).wf(),
            from <= to <= old(self).buf().lines@.len(),
        ensures
            final(self).wf(),
            final(self).buf().lines_view() == spec_clear_rows(old(self).buf().lines_view(), from as int, to as int,
                old(self).buf().cols as int, old(self).buf().style, keep_len),
            final(self).buf().cursor == old(self).buf().cursor,
            final(self).buf().pending_wrap == old(self).buf().pending_wrap,
            final(self).buf().same_settings(&old(self).buf()),
            final(self).same_outside(old(self)),
    {
        let cols = self.screen_buffer.cols;
        let style = self.screen_buffer.style;
        let erased = ScreenCell::blank(style.erase_style());
        let colored = style.bg_rgba.is_some();
        let ghost start = self.screen_buffer.lines_view();
        let mut r = from;
        while r < to
            invariant
                old(self).wf(),
                from <= r <= to,
                to <= start.len(),
                start == old(self).buf().lines_view(),
                cols == old(self).buf().cols,
                style == old(self).buf().style,
                erased == ScreenCell::spec_blank(style.spec_erase()),
                colored == (style.bg_rgba is Some),
                self.screen_buffer.lines@.len() == start.len(),
                self.screen_buffer.lines_view() == spec_clear_rows(start, from as int, r as int, cols as int, style, keep_len),
                self.screen_buffer.cursor == old(self).buf().cursor,
                self.screen_buffer.pending_wrap == old(self).buf().pending_wrap,
                self.screen_buffer.same_settings(&old(self).buf()),
                self.same_outside(old(self)),
            decreases to - r,
        {
            let target = if colored { cols } else if keep_len { self.screen_buffer.lines[r].len() } else { 0 };
            let mut fresh: ScreenLine = Vec::new();
            pad_line(&mut fresh, target, erased);
            let ghost before = self.screen_buffer.lines@;
            assert(before[r as int]@ == spec_clear_rows(start, from as int, r as int, cols as int, style, keep_len)[r as int]);
            assert(before[r as int]@ == start[r as int]);
            assert(fresh@ =~= spec_repeat(erased, target as int));
            self.screen_buffer.lines.set(r, fresh);
            assert(self.screen_buffer.lines@ == before.update(r as int, fresh));
            r = r + 1;
            assert forall|i: int| 0 <= i < start.len() implies #[trigger] self.screen_buffer.lines_view()[i]
                == spec_clear_rows(start, from as int, r as int, cols as int, style, keep_len)[i] by {
                if i != r - 1 {
                    assert(self.screen_buffer.lines@[i] == before[i]);
                    assert(before[i]@ == spec_clear_rows(start, from as int, r - 1, cols as int, style, keep_len)[i]);
                }
            }
            assert(self.screen_buffer.lines_view() =~= spec_clear_rows(start, from as int, r as int, cols as int, style, keep_len));
        }
    }

    /// Erases the display from the cursor on (ED 0), before the cursor (ED 1) or the
    /// whole visible screen (ED 2); the scrollback and the cursor stay.
    pub fn erase_display(&mut self, mode: EraseMode)
        requires
            old(self).wf(),
        ensures
            final(self).wf(),
            did_erase_display(*old(self), *final(self), mode),
    {
        match mode {
            EraseMode::ToEnd => {
                self.erase_line(EraseMode::ToEnd);
                proof { lemma_grow_len(old(self).buf().lines_view(), old(self).buf().cursor.row as int); }
                assert(self.screen_buffer.lines_view().len() == self.screen_buffer.lines@.len());
                let to = self.screen_buffer.lines.len();
                let from = self.screen_buffer.cursor.row + 1;
                self.clear_rows(from, to, false);
            },
            EraseMode::ToStart => {
                let top = self.screen_buffer.get_viewport_top();
                let row = self.screen_buffer.cursor.row;
                let len = self.screen_buffer.lines.len();
                let to = if row < len { row } else { len };
                let from = if top < to { top } else { to };
                self.clear_rows(from, to, true);
                self.erase_line(EraseMode::ToStart);
            },
            EraseMode::All => {
                let top = self.screen_buffer.get_viewport_top();
                let len = self.screen_buffer.lines.len();
                self.clear_rows(top, len, false);
            },
        }
    }

    /// Moves the cursor to the next tab stop `amount` times; without a stop to the right
    /// it goes to the last column.
    pub fn tab_forward(&mut self, amount: usize)
        requires
            old(self).wf(),
        ensures
            final(self).wf(),
            did_tab_forward(*old(self), *final(self), amount),
    {
        let last = self.screen_buffer.cols - 1;
        let mut col = self.screen_buffer.cursor.col;
        let mut i: usize = 0;
        let ghost stops = self.screen_buffer.tab_stops@;
        while i < amount
            invariant
                old(self).wf(),
                stops == old(self).buf().tab_stops@,
                last == old(self).buf().cols - 1,
                i <= amount,
                col <= last,
                spec_tab_forward(stops, col as int, (amount - i) as int, last as int)
                    == spec_tab_forward(stops, old(self).buf().cursor.col as int, amount as int, last as int),
            decreases amount - i,
        {
            col = next_tab_stop(&self.screen_buffer.tab_stops, col, last);
            i = i + 1;
        }
        self.move_cursor_to_col(col);
    }

    /// Moves the cursor to the previous tab stop `amount` times, or to the first column.
    pub fn tab_backward(&mut self, amount: usize)
        requires
            old(self).wf(),
        ensures
            final(self).wf(),
            did_tab_backward(*old(self), *final(self), amount),
    {
        let mut col = self.screen_buffer.cursor.col;
        let mut i: usize = 0;
        let ghost stops = self.screen_buffer.tab_stops@;
        while i < amount
            invariant
                old(self).wf(),
                stops == old(self).buf().tab_stops@,
                i <= amount,
                col < old(self).buf().cols,
                spec_tab_backward(stops, col as int, (amount - i) as int)
                    == spec_tab_backward(stops, old(self).buf().cursor.col as int, amount as int),
            decreases amount - i,
        {
            col = previous_tab_stop(&self.screen_buffer.tab_stops, col);
            i = i + 1;
        }
        self.move_cursor_to_col(col);
    }

    /// Horizontal tab: the next tab stop.
    pub fn tab(&mut self)
        requires
            old(self).wf(),
        ensures
            final(self).wf(),
            did_tab(*old(self), *final(self)),
    {
        self.tab_forward(1);
    }

    /// Clears the tab stop at the cursor (TBC 0) or every tab stop (TBC 3).
    pub fn clear_tab_stop(&mut self, mode: TabClearMode)
        requires
            old(self).wf(),
        ensures
            final(self).wf(),
            did_clear_tab_stop(*old(self), *final(self), mode),
    {
        match mode {
            TabClearMode::Current => {
                let col = self.screen_buffer.cursor.col;
                self.screen_buffer.tab_stops.set(col, false);
            },
            TabClearMode::All => {
                let cols = self.screen_buffer.cols;
                let mut stops: Vec<bool> = Vec::new();
                let mut i: usize = 0;
                while i < cols
                    invariant
                        i <= cols,
                        stops@ == spec_repeat(false, i as int),
                    decreases cols - i,
                {
                    stops.push(false);
                    i = i + 1;
                    assert(stops@ =~= spec_repeat(false, i as int));
                }
                self.screen_buffer.tab_stops = stops;
            },
        }
    }

    /// Remembers the cursor position (DECSC).
    pub fn save_cursor_position(&mut self)
        requires
            old(self).wf(),
        ensures
            final(self).wf(),
            spec_saved_cursor(*old(self), *final(self)),
    {
        let position = CursorPosition { row: self.screen_buffer.cursor.row, col: self.screen_buffer.cursor.col };
        self.screen_buffer.cursor.saved = Some(position);
    }

    /// Returns the cursor to the saved position (DECRC), kept inside the screen.
    pub fn restore_cursor_position(&mut self)
        requires
            old(self).wf(),
        ensures
            final(self).wf(),
            spec_restored_cursor(*old(self), *final(self)),
    {
        if let Some(pos) = self.screen_buffer.cursor.saved {
            let line_count = self.screen_buffer.lines.len();
            let limit = if line_count > self.screen_buffer.rows { line_count } else { self.screen_buffer.rows };
            self.screen_buffer.cursor.row = if pos.row < limit { pos.row } else { limit - 1 };
            let last = self.screen_buffer.cols - 1;
            self.screen_buffer.cursor.col = if pos.col < self.screen_buffer.cols { pos.col } else { last };
            self.screen_buffer.pending_wrap = false;
            self.screen_buffer.ensure_cursor_line();
        }
    }

    /// Moves the cursor one row down, creating the row if needed.
    fn cursor_down_one(&mut self)
        requires
            old(self).wf(),
        ensures
            final(self).wf(),
            final(self).buf().cursor.row == old(self).buf().cursor.row + 1,
            final(self).buf().cursor.col == old(self).buf().cursor.col,
            final(self).buf().cursor.saved == old(self).buf().cursor.saved,
            final(self).buf().lines_view() == spec_grow_to(old(self).buf().lines_view(), old(self).buf().cursor.row + 1),
            final(self).buf().pending_wrap == old(self).buf().pending_wrap,
            final(self).buf().same_settings(&old(self).buf()),
            final(self).same_outside(old(self)),
    {
        let row = self.screen_buffer.cursor.row;
        let line_count = self.screen_buffer.lines.len();
        assert(row < spec_row_limit(line_count as int, self.screen_buffer.rows as int));
        let target = row + 1;
        let ghost start = self.screen_buffer.lines_view();
        let ghost start_len = self.screen_buffer.lines@.len();
        while self.screen_buffer.lines.len() <= target
            invariant
                old(self).wf(),
                self.screen_buffer.same_settings(&old(self).buf()),
                self.screen_buffer.cursor == old(self).buf().cursor,
                self.screen_buffer.pending_wrap == old(self).buf().pending_wrap,
                self.same_outside(old(self)),
                target == old(self).buf().cursor.row + 1,
                start == old(self).buf().lines_view(),
                start_len == old(self).buf().lines@.len(),
                start_len <= self.screen_buffer.lines@.len(),
                self.screen_buffer.lines@.len() <= if target < start_len { start_len as int } else { target + 1 },
                self.screen_buffer.lines_view() == start + spec_repeat(Seq::<ScreenCell>::empty(), self.screen_buffer.lines@.len() - start_len),
            decreases target + 1 - self.screen_buffer.lines@.len(),
        {
            let ghost prev = self.screen_buffer.lines@;
            let empty: ScreenLine = Vec::new();
            self.screen_buffer.lines.push(empty);
            assert(spec_lines_view(self.screen_buffer.lines@) =~= spec_lines_view(prev).push(Seq::<ScreenCell>::empty()));
            assert(self.screen_buffer.lines_view() =~= start + spec_repeat(Seq::<ScreenCell>::empty(), self.screen_buffer.lines@.len() - start_len));
        }
        self.screen_buffer.cursor.row = target;
        assert(self.screen_buffer.lines_view() =~= spec_grow_to(start, target as int));
    }

    /// Index (IND, and LF): the cursor goes one row down, or the scroll region scrolls up
    /// when the cursor is on its bottom row.
    pub fn index(&mut self)
        requires
            old(self).wf(),
        ensures
            final(self).wf(),
            did_index(*old(self), *final(self)),
    {
        let row = self.screen_buffer.cursor.row;
        proof { lemma_grow_len(old(self).buf().lines_view(), old(self).buf().region_bottom()); }
        if self.screen_buffer.scroll_region_active {
            let (top, bottom) = self.scroll_region_bounds();
            if top <= row && row == bottom {
                let ghost mid = self.screen_buffer.lines_view();
                assert(mid == spec_grow_to(old(self).buf().lines_view(), old(self).buf().region_bottom()));
                self.scroll_up(1);
                assert(spec_grow_to(mid, bottom as int) == mid);
                assert(self.screen_buffer.lines_view() == spec_scrolled_up(mid, top as int, bottom as int, 1));
            } else {
                self.cursor_down_one();
            }
        } else {
            self.cursor_down_one();
        }
        self.screen_buffer.pending_wrap = false;
    }

    /// Reverse index (RI): the cursor goes one row up, or the scroll region scrolls down
    /// when the cursor is on its top row.
    pub fn reverse_index(&mut self)
        requires
            old(self).wf(),
        ensures
            final(self).wf(),
            did_reverse_index(*old(self), *final(self)),
    {
        let row = self.screen_buffer.cursor.row;
        if self.screen_buffer.scroll_region_active {
            let (top, bottom) = self.scroll_region_bounds();
            if row <= bottom && row == top {
                self.scroll_down(1);
            } else {
                self.screen_buffer.cursor.row = row.saturating_sub(1);
            }
        } else {
            self.screen_buffer.cursor.row = row.saturating_sub(1);
        }
        self.screen_buffer.pending_wrap = false;
    }

    /// Line wrap and NEL: index, then back to the first column.
    pub fn advance_to_next_line(&mut self)
        requires
            old(self).wf(),
        ensures
            final(self).wf(),
            did_advance_to_next_line(*old(self), *final(self)),
    {
        self.index();
        self.carriage_return();
    }

    /// Executes a C0 control: LF, CR, BS (and DEL) and HT; other controls are ignored.
    pub fn apply_execute(&mut self, byte: u8)
        requires
            old(self).wf(),
        ensures
            final(self).wf(),
            did_apply_execute(*old(self), *final(self), byte),
    {
        if byte == 0x0a {
            self.index();
        } else if byte == 0x0d {
            self.carriage_return();
        } else if byte == 0x08 || byte == 0x7f {
            self.backspace();
        } else if byte == 0x09 {
            self.tab();
        }
    }
}

impl Screen {
    /// Writes a character of the given width at the cursor and advances the cursor.
    #[verifier::rlimit(50)]
    fn write_char_at_cursor(&mut self, c: char, width: usize)
        requires
            old(self).wf(),
            1 <= width <= 2,
            width == 2 ==> old(self).buf().cursor.col + 1 < old(self).buf().cols || old(self).buf().cursor.col == 0,
        ensures
            final(self).wf(),
            ({
                let ob = old(self).buf();
                let fb = final(self).buf();
                let w = width as int;
                let landing = ob.cursor.col as int;
                &&& fb.cursor.row == ob.cursor.row
                &&& fb.cursor.col == if landing + w >= ob.cols { ob.cols - 1 } else { landing + w }
                &&& fb.pending_wrap == (landing + w >= ob.cols)
                &&& fb.cursor.row < fb.lines@.len()
                &&& fb.lines_view() == ({
                        let grown = spec_grow_to(ob.lines_view(), ob.cursor.row as int);
                        let padded = spec_pad(grown[ob.cursor.row as int], ob.cursor.col as int, ScreenCell::spec_blank(CellStyle::spec_plain()));
                        grown.update(ob.cursor.row as int, spec_put_line(padded, ob.cursor.col as int, c, ob.style, w, ob.insert_mode, ob.cols as int))
                    })
                &&& fb.lines_view()[fb.cursor.row as int][landing] == ScreenCell::spec_new(c, ob.style)
                &&& w == 2 ==> fb.lines_view()[fb.cursor.row as int][landing + 1] == ScreenCell::spec_wide_continuation(ob.style)
                &&& fb.cursor.saved == ob.cursor.saved
                &&& fb.same_settings(&ob)
            }),
            final(self).same_outside(old(self)),
    {
        self.ensure_cursor_col();
        let row = self.screen_buffer.cursor.row;
        let col = self.screen_buffer.cursor.col;
        let cols = self.screen_buffer.cols;
        let style = self.screen_buffer.style;
        let insert_mode = self.screen_buffer.insert_mode;
        let ghost before = self.screen_buffer.lines@;
        assert(spec_lines_view(before)[row as int] == before[row as int]@);
        let line = &mut self.screen_buffer.lines[row];
        let ghost start = line@;
        if insert_mode {
            insert_cells(line, col, width, ScreenCell::blank(style));
            let ghost inserted = line@;
            line.truncate(cols);
            assert(line@ =~= spec_truncate(inserted, cols as int));
        }
        write_cell(line, col, ScreenCell::new(c, style));
        if width == 2 {
            write_cell(line, col + 1, ScreenCell::wide_continuation(style));
        }
        let ghost written = line@;
        assert(written == spec_put_line(start, col as int, c, style, width as int, insert_mode, cols as int));
        assert(written[col as int] == ScreenCell::spec_new(c, style));
        assert(self.screen_buffer.lines_view() =~= spec_lines_view(before).update(row as int, written));
        let next_col = col + width;
        if next_col >= cols {
            self.screen_buffer.cursor.col = cols - 1;
            self.screen_buffer.pending_wrap = true;
        } else {
            self.screen_buffer.cursor.col = next_col;
            self.screen_buffer.pending_wrap = false;
        }
    }

    /// Prints a character at the cursor: a pending wrap (or a two-column character that
    /// does not fit) moves to the next line first; in insert mode the rest of the row
    /// shifts right; the cursor then advances, and a wrap becomes pending at the right edge.
    /// DEL and BS are not printed.
    #[verifier::rlimit(40)]
    pub fn put_char(&mut self, c: char)
        requires
            old(self).wf(),
        ensures
            final(self).wf(),
            did_put_char(*old(self), *final(self), c),
    {
        if c == '\u{7f}' || c == '\u{8}' {
            return;
        }
        let width = cell_width(c);
        if self.screen_buffer.pending_wrap {
            if self.screen_buffer.auto_wrap {
                self.advance_to_next_line();
            } else {
                self.screen_buffer.pending_wrap = false;
            }
        }
        let is_wide = width == 2;
        if is_wide && self.screen_buffer.cursor.col + 1 >= self.screen_buffer.cols {
            self.advance_to_next_line();
        }
        self.write_char_at_cursor(c, width);
        self.last_printed = Some(c);
    }

    /// REP: prints the last printed character again `amount` times.
    pub fn repeat_preceding_character(&mut self, amount: usize)
        requires
            old(self).wf(),
        ensures
            final(self).wf(),
            did_repeat_preceding_character(*old(self), *final(self), amount),
    {
        if let Some(c) = self.last_printed {
            let mut i: usize = 0;
            proof { lemma_print_nothing(*self, c); }
            while i < amount
                invariant
                    self.wf(),
                    i <= amount,
                    old(self).last_printed == Some(c),
                    did_print_repeatedly(*old(self), *self, c, i as nat),
                decreases amount - i,
            {
                let ghost prev = *self;
                self.put_char(c);
                proof { lemma_print_one_more(*old(self), prev, *self, c, i as nat); }
                i = i + 1;
            }
        }
    }

    /// RIS: a fresh primary screen of the same size; the mouse modes are reset too.
    pub fn reset(&mut self)
        requires
            old(self).wf(),
        ensures
            final(self).wf(),
            did_reset(*old(self), *final(self)),
    {
        let size = TerminalSize { cols: self.screen_buffer.cols, rows: self.screen_buffer.rows };
        self.screen_buffer = ScreenBuffer::new(size);
        self.primary_screen = None;
        self.last_printed = None;
        self.mouse = MouseMode::default();
    }

    /// Shows a fresh alternate buffer, keeping the primary one; with `save_cursor`, the
    /// primary cursor is saved first. Nothing happens while the alternate buffer shows.
    pub fn enter_alternate_screen(&mut self, save_cursor: bool)
        requires
            old(self).wf(),
        ensures
            final(self).wf(),
            spec_entered_alternate(*old(self), *final(self), save_cursor),
    {
        if self.primary_screen.is_some() {
            return;
        }
        if save_cursor {
            self.save_cursor_position();
        }
        let size = TerminalSize { cols: self.screen_buffer.cols, rows: self.screen_buffer.rows };
        let mut fresh = ScreenBuffer::new(size);
        std::mem::swap(&mut self.screen_buffer, &mut fresh);
        self.primary_screen = Some(fresh);
        self.last_printed = None;
    }

    /// Returns to the primary buffer, discarding the alternate one; with
    /// `restore_cursor`, the saved primary cursor comes back.
    pub fn leave_alternate_screen(&mut self, restore_cursor: bool)
        requires
            old(self).wf(),
        ensures
            final(self).wf(),
            spec_left_alternate(*old(self), *final(self), restore_cursor),
    {
        let mut taken: Option<ScreenBuffer> = None;
        std::mem::swap(&mut self.primary_screen, &mut taken);
        if let Some(primary) = taken {
            self.screen_buffer = primary;
            if restore_cursor {
                self.restore_cursor_position();
            }
        }
        self.last_printed = None;
    }

    /// Applies one mode of SM (`enabled`) or RM (not `enabled`).
    pub fn set_mode(&mut self, private: bool, mode: u16, enabled: bool)
        requires
            old(self).wf(),
        ensures
            final(self).wf(),
            did_set_mode(*old(self), *final(self), private, mode, enabled),
    {
        if private {
            if mode == 6 {
                self.screen_buffer.origin_mode = enabled;
            } else if mode == 7 {
                self.screen_buffer.auto_wrap = enabled;
            } else if mode == 25 {
                self.screen_buffer.cursor_visible = enabled;
            } else if mode == 47 || mode == 1047 {
                if enabled { self.enter_alternate_screen(false); } else { self.leave_alternate_screen(false); }
            } else if mode == 1048 {
                if enabled { self.save_cursor_position(); } else { self.restore_cursor_position(); }
            } else if mode == 1049 {
                if enabled { self.enter_alternate_screen(true); } else { self.leave_alternate_screen(true); }
            } else {
                self.mouse.set(mode, enabled);
            }
        } else if mode == 4 {
            self.screen_buffer.insert_mode = enabled;
        }
    }

    /// SM: applies each mode in order.
    pub fn set_modes(&mut self, private: bool, modes: &[u16])
        requires
            old(self).wf(),
        ensures
            final(self).wf(),
            did_set_modes(*old(self), *final(self), private, modes@, true),
    {
        self.apply_modes(private, modes, true);
    }

    /// RM: applies each mode in order.
    pub fn reset_modes(&mut self, private: bool, modes: &[u16])
        requires
            old(self).wf(),
        ensures
            final(self).wf(),
            did_set_modes(*old(self), *final(self), private, modes@, false),
    {
        self.apply_modes(private, modes, false);
    }

    fn apply_modes(&mut self, private: bool, modes: &[u16], enabled: bool)
        requires
            old(self).wf(),
        ensures
            final(self).wf(),
            did_set_modes(*old(self), *final(self), private, modes@, enabled),
    {
        let mut i: usize = 0;
        proof { lemma_set_no_modes(*self, private, modes@.subrange(0, 0), enabled); }
        while i < modes.len()
            invariant
                self.wf(),
                i <= modes@.len(),
                did_set_modes(*old(self), *self, private, modes@.subrange(0, i as int), enabled),
            decreases modes@.len() - i,
        {
            let ghost prev = *self;
            self.set_mode(private, modes[i], enabled);
            proof {
                assert(modes@.subrange(0, i + 1).drop_last() =~= modes@.subrange(0, i as int));
                lemma_set_one_more_mode(*old(self), prev, *self, private, modes@.subrange(0, i + 1), enabled);
            }
            i = i + 1;
        }
        assert(modes@.subrange(0, modes@.len() as int) =~= modes@);
    }

    /// Drops the oldest rows beyond the scrollback limit (none are kept above the
    /// alternate screen); the cursor, the saved cursor and the dropped-row count follow.
    pub fn limit_history(&mut self)
        requires
            old(self).wf(),
        ensures
            final(self).wf(),
            did_limit_history(*old(self), *final(self)),
    {
        let max = if self.primary_screen.is_some() { 0 } else { MAX_HISTORY };
        let len = self.screen_buffer.lines.len();
        let rows = self.screen_buffer.rows;
        if len <= rows || len - rows <= max {
            return;
        }
        let excess = len - rows - max;
        let ghost before = self.screen_buffer.lines@;
        let rest = self.screen_buffer.lines.split_off(excess);
        self.screen_buffer.lines = rest;
        assert(self.screen_buffer.lines_view() =~= spec_lines_view(before).subrange(excess as int, len as int));
        self.screen_buffer.cursor.row = self.screen_buffer.cursor.row.saturating_sub(excess);
        if let Some(pos) = self.screen_buffer.cursor.saved {
            self.screen_buffer.cursor.saved = Some(CursorPosition { row: pos.row.saturating_sub(excess), col: pos.col });
        }
        self.history_start = self.history_start.saturating_add(excess);
    }

    /// Applies an OSC sequence: only the cursor color matters to the screen.
    pub fn apply_osc(&mut self, message: &OscMessage)
        requires
            old(self).wf(),
        ensures
            final(self).wf(),
            did_apply_osc(*old(self), *final(self), *message),
    {
        match message {
            OscMessage::SetCursorColor(c) => self.screen_buffer.cursor_color = Some(*c),
            OscMessage::ResetCursorColor => self.screen_buffer.cursor_color = None,
            _ => {},
        }
    }

    /// Applies an ESC sequence.
    pub fn apply_esc(&mut self, message: EscMessage)
        requires
            old(self).wf(),
        ensures
            final(self).wf(),
            did_apply_esc(*old(self), *final(self), message),
    {
        match message {
            EscMessage::SaveCursor => self.save_cursor_position(),
            EscMessage::RestoreCursor => self.restore_cursor_position(),
            EscMessage::Index => self.index(),
            EscMessage::NextLine => self.advance_to_next_line(),
            EscMessage::ReverseIndex => self.reverse_index(),
            EscMessage::Reset => self.reset(),
            EscMessage::Unknown => {},
        }
    }

    /// Applies a CSI sequence by the editing operation it names.
    pub fn apply_csi(&mut self, message: CsiMessage)
        requires
            old(self).wf(),
        ensures
            final(self).wf(),
            did_apply_csi(*old(self), *final(self), message),
    {
        match message {
            CsiMessage::CursorUp(n) => self.move_cursor_up(n as usize),
            CsiMessage::CursorDown(n) => self.move_cursor_down(n as usize),
            CsiMessage::CursorForward(n) => self.move_cursor_forward(n as usize),
            CsiMessage::CursorBackward(n) => self.move_cursor_backward(n as usize),
            CsiMessage::CursorNextLine(n) => {
                self.move_cursor_down(n as usize);
                self.carriage_return();
            },
            CsiMessage::CursorPreviousLine(n) => {
                self.move_cursor_up(n as usize);
                self.carriage_return();
            },
            CsiMessage::CursorHorizontalAbsolute(col) => self.move_cursor_to_col((col as usize).saturating_sub(1)),
            CsiMessage::CursorVerticalAbsolute(row) => self.move_cursor_to_row_absolute((row as usize).saturating_sub(1)),
            CsiMessage::CursorHorizontalRelative(n) => self.move_cursor_forward(n as usize),
            CsiMessage::CursorVerticalRelative(n) => self.move_cursor_down(n as usize),
            CsiMessage::CursorPosition { row, col } => {
                let r = self.cursor_row_from_viewport((row as usize).saturating_sub(1));
                self.move_cursor_to(CursorPosition { row: r, col: (col as usize).saturating_sub(1) });
            },
            CsiMessage::EraseDisplay(mode) => self.erase_display(mode),
            CsiMessage::EraseLine(mode) => self.erase_line(mode),
            CsiMessage::EraseCharacters(n) => self.erase_characters(n as usize),
            CsiMessage::DeleteCharacters(n) => self.delete_characters(n as usize),
            CsiMessage::InsertBlankCharacters(n) => self.insert_blank_characters(n as usize),
            CsiMessage::InsertLines(n) => self.insert_lines(n as usize),
            CsiMessage::DeleteLines(n) => self.delete_lines(n as usize),
            CsiMessage::ScrollUp(n) => self.scroll_up(n as usize),
            CsiMessage::ScrollDown(n) => self.scroll_down(n as usize),
            CsiMessage::SetScrollRegion { top, bottom } => {
                let bottom = match bottom { Some(b) => Some(b as usize), None => None };
                self.set_scroll_region(top as usize, bottom);
            },
            CsiMessage::CursorForwardTabulation(n) => self.tab_forward(n as usize),
            CsiMessage::CursorBackwardTabulation(n) => self.tab_backward(n as usize),
            CsiMessage::TabClear(mode) => self.clear_tab_stop(mode),
            CsiMessage::RepeatPrecedingCharacter(n) => self.repeat_preceding_character(n as usize),
            CsiMessage::SaveCursor => self.save_cursor_position(),
            CsiMessage::RestoreCursor => self.restore_cursor_position(),
            CsiMessage::SelectGraphicRendition(params) => sgr::apply(&mut self.screen_buffer.style, params.as_slice()),
            CsiMessage::SetMode { private, modes } => self.set_modes(private, modes.as_slice()),
            CsiMessage::ResetMode { private, modes } => self.reset_modes(private, modes.as_slice()),
            CsiMessage::DeviceStatusReport(_) => {},
            CsiMessage::Unknown => {},
        }
    }

    /// A printable character from the parser.
    pub fn print(&mut self, c: char)
        requires
            old(self).wf(),
        ensures
            final(self).wf(),
            did_put_char(*old(self), *final(self), c),
    {
        self.put_char(c);
    }

    /// A C0 control from the parser.
    pub fn execute(&mut self, byte: u8)
        requires
            old(self).wf(),
        ensures
            final(self).wf(),
            did_apply_execute(*old(self), *final(self), byte),
    {
        self.apply_execute(byte);
    }

    /// A CSI sequence from the parser, decoded and applied.
    pub fn csi_dispatch(&mut self, params: &Vec<Vec<u16>>, intermediates: &[u8], ignore: bool, action: char)
        requires
            old(self).wf(),
        ensures
            final(self).wf(),
            exists|message: CsiMessage| #[trigger] spec_csi(spec_groups(params@), intermediates@, ignore, action, message)
                && did_apply_csi(*old(self), *final(self), message),
    {
        let message = decode_csi(params, intermediates, ignore, action);
        self.apply_csi(message);
    }

    /// An ESC sequence from the parser, decoded and applied.
    pub fn esc_dispatch(&mut self, intermediates: &[u8], ignore: bool, byte: u8)
        requires
            old(self).wf(),
        ensures
            final(self).wf(),
            did_apply_esc(*old(self), *final(self), spec_esc(intermediates@, ignore, byte)),
    {
        let message = decode_esc(intermediates, ignore, byte);
        self.apply_esc(message);
    }

    /// An OSC sequence from the parser, decoded and applied.
    pub fn osc_dispatch(&mut self, params: &Vec<Vec<u8>>)
        requires
            old(self).wf(),
        ensures
            final(self).wf(),
            exists|message: OscMessage| spec_osc(params@.map_values(|p: Vec<u8>| p@), message)
                && #[trigger] did_apply_osc(*old(self), *final(self), message),
    {
        let message = decode_osc(params);
        self.apply_osc(&message);
    }
}

/// Printing a character with no wrap pending and room for it on the row (replace mode):
/// the cell under the cursor shows it in the current style and the cursor moves right by
/// its width, one column or two; a two-column character also takes the next cell as its
/// right half. Every other cell the row had, and every other row, stays as it was; no wrap
/// becomes pending.
pub proof fn lemma_print_writes_at_cursor(before: Screen, after: Screen, c: char)
    requires
        before.wf(),
        c != '\u{7f}' && c != '\u{8}',
        !before.buf().pending_wrap,
        !before.buf().insert_mode,
        before.buf().cursor.col + spec_cell_width(c) < before.buf().cols,
        did_put_char(before, after, c),
    ensures
        ({
            let b = before.buf();
            let row = b.cursor.row as int;
            let col = b.cursor.col as int;
            let w = spec_cell_width(c);
            let old_rows = b.lines_view();
            let old_line = if row < old_rows.len() { old_rows[row] } else { Seq::<ScreenCell>::empty() };
            let new_line = after.buf().lines_view()[row];
            &&& after.buf().cursor.row == row
            &&& after.buf().cursor.col == col + w
            &&& !after.buf().pending_wrap
            &&& new_line[col] == (ScreenCell { ch: c, style: b.style, is_wide_continuation: false })
            &&& w == 2 ==> new_line[col + 1] == (ScreenCell { ch: ' ', style: b.style, is_wide_continuation: true })
            &&& forall|k: int| 0 <= k < old_line.len() && (k < col || k >= col + w) ==> #[trigger] new_line[k] == old_line[k]
            &&& forall|r: int| 0 <= r < old_rows.len() && r != row ==> #[trigger] after.buf().lines_view()[r] == old_rows[r]
        }),
{
    let b = before.buf();
    let row = b.cursor.row as int;
    let col = b.cursor.col as int;
    let w = spec_cell_width(c);
    lemma_grow_len(b.lines_view(), row);
    let grown = spec_grow_to(b.lines_view(), row);
    assert forall|r: int| 0 <= r < b.lines_view().len() implies #[trigger] grown[r] == b.lines_view()[r] by {}
}

/// CUU, CUD, CUF and CUB (outside origin mode) move the cursor by the amount asked, along one
/// axis, and stop at the edge of the visible screen: up to its top row, down to its bottom
/// row, right to its last column, left to column 0. Forward and then back by the same amount
/// returns to the column when the move forward fitted. No row's text changes.
pub proof fn lemma_cursor_moves_by_amount(
    before: Screen,
    up: Screen,
    down: Screen,
    forward: Screen,
    back: Screen,
    forward_back: Screen,
    n: usize,
)
    requires
        before.wf(),
        !before.buf().origin_mode,
        did_move_cursor_up(before, up, n),
        did_move_cursor_down(before, down, n),
        did_move_cursor_forward(before, forward, n),
        did_move_cursor_backward(before, back, n),
        did_move_cursor_backward(forward, forward_back, n),
    ensures
        ({
            let b = before.buf();
            let row = b.cursor.row as int;
            let col = b.cursor.col as int;
            let top = b.viewport_top();
            let bottom = b.row_limit() - 1;
            &&& up.buf().cursor.col == col && down.buf().cursor.col == col
            &&& forward.buf().cursor.row == row && back.buf().cursor.row == row
            &&& up.buf().cursor.row <= row
            &&& row - n >= top ==> up.buf().cursor.row == row - n
            &&& row >= top ==> up.buf().cursor.row >= top
            &&& down.buf().cursor.row >= row
            &&& row + n <= bottom ==> down.buf().cursor.row == row + n
            &&& down.buf().cursor.row <= bottom
            &&& forward.buf().cursor.col >= col && forward.buf().cursor.col < b.cols
            &&& col + n < b.cols ==> forward.buf().cursor.col == col + n
            &&& col + n < b.cols ==> forward_back.buf().cursor.col == col
            &&& back.buf().cursor.col <= col
            &&& col >= n ==> back.buf().cursor.col == col - n
            &&& up.buf().lines_view() == b.lines_view()
            &&& forall|r: int| 0 <= r < b.lines_view().len() ==> #[trigger] down.buf().lines_view()[r] == b.lines_view()[r]
        }),
{
    let b = before.buf();
    let row = b.cursor.row as int;
    lemma_grow_len(b.lines_view(), down.buf().cursor.row as int);
}

/// EL 0 and EL 2 on one row. EL 0 keeps every cell left of the cursor (left of the wide
/// character under it) and leaves no cell from there on but blanks of the erase style; EL 2
/// leaves nothing but such blanks. Either way the row holds no more cells than the screen
/// is wide, or than it had.
pub proof fn lemma_erase_row_to_end_and_all(line: Seq<ScreenCell>, col: int, cols: int, style: CellStyle)
    requires
        0 <= col < cols,
    ensures
        ({
            let erased = ScreenCell::spec_blank(style.spec_erase());
            let start = if col < line.len() && line[col].is_wide_continuation && col > 0 { col - 1 } else { col };
            let to_end = spec_erase_line(line, col, cols, style, EraseMode::ToEnd);
            let all = spec_erase_line(line, col, cols, style, EraseMode::All);
            &&& forall|c: int| 0 <= c < start && c < line.len() ==> #[trigger] to_end[c] == line[c]
            &&& to_end.len() >= (if start < line.len() { start } else { line.len() as int })
            &&& forall|c: int| start <= c < to_end.len() ==> #[trigger] to_end[c] == erased
            &&& to_end.len() <= (if line.len() > cols { line.len() as int } else { cols })
            &&& forall|c: int| 0 <= c < all.len() ==> #[trigger] all[c] == erased
            &&& all.len() <= cols
        }),
{
}

/// EL 1 on one row: the cells from the start of the row through the cursor (and the right
/// half of a wide character under it) become blanks of the erase style, and every other
/// cell to the right of the cursor is what it was; the row does not get shorter.
pub proof fn lemma_erase_row_to_start(line: Seq<ScreenCell>, col: int, cols: int, style: CellStyle)
    requires
        0 <= col < cols,
    ensures
        ({
            let result = spec_erase_line(line, col, cols, style, EraseMode::ToStart);
            &&& result.len() >= line.len()
            &&& forall|c: int| col < c < line.len() && !(c == col + 1 && line[c].is_wide_continuation)
                ==> #[trigger] result[c] == line[c]
            &&& forall|c: int| 0 <= c <= col && c < result.len()
                ==> #[trigger] result[c] == ScreenCell::spec_blank(style.spec_erase())
        }),
{
    let erased = ScreenCell::spec_blank(style.spec_erase());
    let plain = ScreenCell::spec_blank(CellStyle::spec_plain());
    let colored = style.bg_rgba is Some;
    let padded = if colored { spec_pad(line, col + 1, plain) } else { line };
    let end0 = if col + 1 < padded.len() { col + 1 } else { padded.len() as int };
    let end = if end0 < padded.len() && padded[end0].is_wide_continuation { end0 + 1 } else { end0 };
    let result = spec_fill(padded, 0, end, erased);
    assert(result == spec_erase_line(line, col, cols, style, EraseMode::ToStart));
    assert(padded.len() >= line.len());
    assert forall|c: int| 0 <= c < line.len() implies #[trigger] padded[c] == line[c] by {}
    assert(result.len() == padded.len());
    assert forall|c: int| end <= c < padded.len() implies #[trigger] result[c] == padded[c] by {}
    assert forall|c: int| 0 <= c < end implies #[trigger] result[c] == erased by {}
    assert forall|c: int| col < c < line.len() && !(c == col + 1 && line[c].is_wide_continuation)
        implies #[trigger] result[c] == line[c] by {
        assert(end <= c);
        assert(result[c] == padded[c]);
    }
}

/// EL 1 (erase from the start of the line to the cursor) changes the cursor's row only:
/// its cells through the cursor, with the right half of a wide character under it, become
/// blanks of the erase style; every cell right of that keeps what it held; the other rows,
/// the cursor and the settings stay.
pub proof fn lemma_erase_to_start_keeps_the_rest(before: Screen, after: Screen)
    requires
        before.wf(),
        did_erase_line(before, after, EraseMode::ToStart),
    ensures
        ({
            let b = before.buf();
            let row = b.cursor.row as int;
            let col = b.cursor.col as int;
            let old_rows = b.lines_view();
            let new_rows = after.buf().lines_view();
            let old_line = if row < old_rows.len() { old_rows[row] } else { Seq::<ScreenCell>::empty() };
            let new_line = new_rows[row];
            &&& row < new_rows.len()
            &&& new_rows.len() >= old_rows.len()
            &&& forall|r: int| 0 <= r < old_rows.len() && r != row ==> #[trigger] new_rows[r] == old_rows[r]
            &&& new_line.len() >= old_line.len()
            &&& forall|c: int| col < c < old_line.len() && !(c == col + 1 && old_line[c].is_wide_continuation)
                ==> #[trigger] new_line[c] == old_line[c]
            &&& forall|c: int| 0 <= c <= col && c < new_line.len()
                ==> #[trigger] new_line[c] == ScreenCell::spec_blank(b.style.spec_erase())
            &&& after.buf().cursor == b.cursor
        }),
{
    let b = before.buf();
    let row = b.cursor.row as int;
    let col = b.cursor.col as int;
    let grown = spec_grow_to(b.lines_view(), row);
    lemma_grow_len(b.lines_view(), row);
    let old_line = if row < b.lines_view().len() { b.lines_view()[row] } else { Seq::<ScreenCell>::empty() };
    assert(grown[row] == old_line);
    assert forall|r: int| 0 <= r < b.lines_view().len() implies #[trigger] grown[r] == b.lines_view()[r] by {}
    lemma_erase_row_to_start(grown[row], col, b.cols as int, b.style);
}

/// A resize to `size`, a zero dimension counting as one: both buffers are brought to the
/// new size; nothing else changes.
pub open spec fn did_resize(before: Screen, after: Screen, size: TerminalSize) -> bool {
    &&& spec_is_resized(before.buf(), after.buf(), size.spec_at_least_one())
    &&& after.primary_screen is Some == before.primary_screen is Some
    &&& before.primary_screen is Some ==> spec_is_resized(
        before.primary_screen.unwrap(),
        after.primary_screen.unwrap(),
        size.spec_at_least_one(),
    )
    &&& after.last_printed == before.last_printed
    &&& after.mouse == before.mouse
    &&& after.history_start == before.history_start
}

/// The mouse modes after SM or RM of one DEC private mode.
pub open spec fn spec_mouse_set(m: MouseMode, mode: u16, enabled: bool) -> MouseMode {
    if mode == 1000 || mode == 1002 || mode == 1003 { MouseMode { tracking: if enabled { mode } else { 0 }, sgr: m.sgr } }
    else if mode == 1006 { MouseMode { tracking: m.tracking, sgr: enabled } }
    else { m }
}

/// The mouse modes after SM or RM of each of `modes` in turn.
pub open spec fn spec_mouse_fold(m: MouseMode, modes: Seq<u16>, enabled: bool) -> MouseMode
    decreases modes.len(),
{
    if modes.len() == 0 { m } else { spec_mouse_set(spec_mouse_fold(m, modes.drop_last(), enabled), modes.last(), enabled) }
}

/// A row after printing `c` at `col`: in insert mode the row first shifts right by the
/// character's width (and is cut at the last column); the cell at `col` takes the
/// character and, for a two-column character, the next cell its continuation.
pub open spec fn spec_put_line(line: Seq<ScreenCell>, col: int, c: char, style: CellStyle, w: int, insert: bool, cols: int) -> Seq<ScreenCell> {
    let base = if insert { spec_truncate(spec_insert(line, col, w, ScreenCell::spec_blank(style)), cols) } else { line };
    let cell = ScreenCell::spec_new(c, style);
    let l1 = if col == base.len() { base.push(cell) } else { base.update(col, cell) };
    let cont = ScreenCell::spec_wide_continuation(style);
    if w == 2 { if col + 1 == l1.len() { l1.push(cont) } else { l1.update(col + 1, cont) } } else { l1 }
}

/// Writes a cell at `col`, appending it when `col` is the row's length.
pub fn write_cell(line: &mut ScreenLine, col: usize, cell: ScreenCell)
    requires
        col <= old(line)@.len(),
    ensures
        final(line)@ == if col == old(line)@.len() { old(line)@.push(cell) } else { old(line)@.update(col as int, cell) },
{
    if col == line.len() {
        line.push(cell);
    } else {
        line.set(col, cell);
    }
}

/// Rows `from..to` replaced: emptied (or, with a background color, filled with colored
/// blanks to the last column); with `keep_len`, blanked with their length kept instead.
pub open spec fn spec_clear_rows(v: Seq<Seq<ScreenCell>>, from: int, to: int, cols: int, style: CellStyle, keep_len: bool) -> Seq<Seq<ScreenCell>> {
    let erased = ScreenCell::spec_blank(style.spec_erase());
    Seq::new(v.len(), |i: int|
        if from <= i < to {
            if style.bg_rgba is Some { spec_repeat(erased, cols) }
            else if keep_len { spec_repeat(erased, v[i].len() as int) }
            else { Seq::empty() }
        } else { v[i] })
}

/// The rows after ED.
pub open spec fn spec_erase_display(b: ScreenBuffer, mode: EraseMode) -> Seq<Seq<ScreenCell>> {
    let row = b.cursor.row as int;
    match mode {
        EraseMode::ToEnd => {
            let grown = spec_grow_to(b.lines_view(), row);
            let erased = grown.update(row, spec_erase_line(grown[row], b.cursor.col as int, b.cols as int, b.style, EraseMode::ToEnd));
            spec_clear_rows(erased, row + 1, erased.len() as int, b.cols as int, b.style, false)
        },
        EraseMode::ToStart => {
            let len = b.lines@.len() as int;
            let to = if row < len { row } else { len };
            let from = if b.viewport_top() < to { b.viewport_top() } else { to };
            let blanked = spec_clear_rows(b.lines_view(), from, to, b.cols as int, b.style, true);
            let grown = spec_grow_to(blanked, row);
            grown.update(row, spec_erase_line(grown[row], b.cursor.col as int, b.cols as int, b.style, EraseMode::ToStart))
        },
        EraseMode::All => spec_clear_rows(b.lines_view(), b.viewport_top(), b.lines@.len() as int, b.cols as int, b.style, false),
    }
}

/// The first tab stop at or after `j`, or `last` when there is none.
pub open spec fn spec_next_stop_from(stops: Seq<bool>, j: int, last: int) -> int
    decreases stops.len() - j,
{
    if j < 0 || j >= stops.len() { last } else if stops[j] { j } else { spec_next_stop_from(stops, j + 1, last) }
}

/// `n` moves to the next tab stop from column `col`.
pub open spec fn spec_tab_forward(stops: Seq<bool>, col: int, n: int, last: int) -> int
    decreases n,
{
    if n <= 0 { col } else { spec_tab_forward(stops, spec_next_stop_from(stops, col + 1, last), n - 1, last) }
}

/// The last tab stop at or before `j`, or 0 when there is none.
pub open spec fn spec_prev_stop_from(stops: Seq<bool>, j: int) -> int
    decreases j + 1,
{
    if j < 0 { 0 } else if j < stops.len() && stops[j] { j } else { spec_prev_stop_from(stops, j - 1) }
}

/// `n` moves to the previous tab stop from column `col`.
pub open spec fn spec_tab_backward(stops: Seq<bool>, col: int, n: int) -> int
    decreases n,
{
    if n <= 0 { col } else { spec_tab_backward(stops, spec_prev_stop_from(stops, col - 1), n - 1) }
}

/// The next tab stop after `col`, or `last`.
pub fn next_tab_stop(stops: &Vec<bool>, col: usize, last: usize) -> (next: usize)
    requires
        col <= last,
        last == stops@.len() - 1,
    ensures
        next == spec_next_stop_from(stops@, col + 1, last as int),
        next <= last,
{
    let n = stops.len();
    let mut j = col + 1;
    while j < stops.len()
        invariant
            col < j <= stops@.len(),
            last == stops@.len() - 1,
            spec_next_stop_from(stops@, j as int, last as int) == spec_next_stop_from(stops@, col + 1, last as int),
        decreases stops@.len() - j,
    {
        if stops[j] {
            return j;
        }
        j = j + 1;
    }
    last
}

/// The previous tab stop before `col`, or 0.
pub fn previous_tab_stop(stops: &Vec<bool>, col: usize) -> (prev: usize)
    requires
        col < stops@.len(),
    ensures
        prev == spec_prev_stop_from(stops@, col - 1),
        prev <= col,
{
    let mut j = col;
    while j > 0
        invariant
            j <= col,
            col < stops@.len(),
            spec_prev_stop_from(stops@, j - 1) == spec_prev_stop_from(stops@, col - 1),
        decreases j,
    {
        if stops[j - 1] {
            return j - 1;
        }
        j = j - 1;
    }
    0
}

/// The row after ECH: see `Screen::erase_characters`.
pub open spec fn spec_erase_characters(b: ScreenBuffer, amount: int) -> Seq<Seq<ScreenCell>> {
    let row = b.cursor.row as int;
    let col = b.cursor.col as int;
    let grown = spec_grow_to(b.lines_view(), row);
    let line = grown[row];
    let colored = b.style.bg_rgba is Some;
    if amount == 0 || (!colored && col >= line.len()) {
        grown
    } else {
        let reach = if amount < b.cols - col { col + amount } else { b.cols as int };
        let padded = if colored { spec_pad(line, reach, ScreenCell::spec_blank(CellStyle::spec_plain())) } else { line };
        let end0 = if reach < padded.len() { reach } else { padded.len() as int };
        let start = if padded[col].is_wide_continuation && col > 0 { col - 1 } else { col };
        let end = if end0 < padded.len() && padded[end0].is_wide_continuation { end0 + 1 } else { end0 };
        grown.update(row, spec_fill(padded, start, end, ScreenCell::spec_blank(b.style.spec_erase())))
    }
}

/// A row after EL at column `col`: `ToEnd` drops the cells from the cursor on (from
/// the start of a two-column character it cuts), `ToStart` blanks the cells up to and
/// including the cursor (and the rest of a character it cuts), `All` empties the row.
/// With a background color set, the erased part is filled with colored blanks up to
/// the last column.
pub open spec fn spec_erase_line(line: Seq<ScreenCell>, col: int, cols: int, style: CellStyle, mode: EraseMode) -> Seq<ScreenCell> {
    let erased = ScreenCell::spec_blank(style.spec_erase());
    let plain = ScreenCell::spec_blank(CellStyle::spec_plain());
    let colored = style.bg_rgba is Some;
    match mode {
        EraseMode::All => if colored { spec_repeat(erased, cols) } else { Seq::empty() },
        EraseMode::ToEnd => {
            let start = if col < line.len() && line[col].is_wide_continuation && col > 0 { col - 1 } else { col };
            if colored {
                spec_pad(line, start, plain).subrange(0, start) + spec_repeat(erased, cols - start)
            } else {
                spec_truncate(line, start)
            }
        },
        EraseMode::ToStart => {
            let padded = if colored { spec_pad(line, col + 1, plain) } else { line };
            let end0 = if col + 1 < padded.len() { col + 1 } else { padded.len() as int };
            let end = if end0 < padded.len() && padded[end0].is_wide_continuation { end0 + 1 } else { end0 };
            spec_fill(padded, 0, end, erased)
        },
    }
}

/// Applies EL to one row.
pub fn erase_in_line(line: &mut ScreenLine, col: usize, cols: usize, style: CellStyle, mode: EraseMode)
    requires
        col < cols,
    ensures
        final(line)@ == spec_erase_line(old(line)@, col as int, cols as int, style, mode),
{
    let erased = ScreenCell::blank(style.erase_style());
    let plain = ScreenCell::blank(CellStyle::plain());
    let colored = style.bg_rgba.is_some();
    match mode {
        EraseMode::All => {
            line.clear();
            if colored {
                pad_line(line, cols, erased);
                assert(line@ =~= spec_repeat(erased, cols as int));
            }
        },
        EraseMode::ToEnd => {
            let start = if col < line.len() && line[col].is_wide_continuation && col > 0 { col - 1 } else { col };
            if colored {
                pad_line(line, start, plain);
                line.truncate(start);
                let ghost kept = line@;
                pad_line(line, cols, erased);
                assert(line@ =~= kept + spec_repeat(erased, cols - start));
            } else {
                line.truncate(start);
            }
        },
        EraseMode::ToStart => {
            if colored {
                pad_line(line, col + 1, plain);
            }
            let len = line.len();
            let end0 = if col + 1 < len { col + 1 } else { len };
            let end = if end0 < len && line[end0].is_wide_continuation { end0 + 1 } else { end0 };
            fill_range(line, 0, end, erased);
        },
    }
}

/// The rows, with empty rows appended until row `upto` exists.
pub open spec fn did_move_cursor_to_col(before: Screen, after: Screen, col: usize) -> bool {
    &&& after.buf().cursor.col == if col < before.buf().cols { col } else { (before.buf().cols - 1) as usize }
    &&& after.buf().cursor.row == before.buf().cursor.row
    &&& after.buf().cursor.saved == before.buf().cursor.saved
    &&& !after.buf().pending_wrap
    &&& after.buf().lines@ == before.buf().lines@
    &&& after.buf().same_settings(&before.buf())
    &&& after.same_outside(&before)
}

pub open spec fn did_carriage_return(before: Screen, after: Screen) -> bool {
    &&& after.buf().cursor == (Cursor { col: 0, ..before.buf().cursor })
    &&& !after.buf().pending_wrap
    &&& after.buf().lines@ == before.buf().lines@
    &&& after.buf().same_settings(&before.buf())
    &&& after.same_outside(&before)
}

pub open spec fn did_move_cursor_forward(before: Screen, after: Screen, amount: usize) -> bool {
    &&& after.buf().cursor.col == if before.buf().cursor.col + amount < before.buf().cols { before.buf().cursor.col + amount } else { before.buf().cols - 1 }
    &&& after.buf().cursor.row == before.buf().cursor.row
    &&& after.buf().cursor.saved == before.buf().cursor.saved
    &&& !after.buf().pending_wrap
    &&& after.buf().lines@ == before.buf().lines@
    &&& after.buf().same_settings(&before.buf())
    &&& after.same_outside(&before)
}

pub open spec fn did_move_cursor_backward(before: Screen, after: Screen, amount: usize) -> bool {
    &&& after.buf().cursor.col == if before.buf().cursor.col >= amount { before.buf().cursor.col - amount } else { 0 }
    &&& after.buf().cursor.row == before.buf().cursor.row
    &&& after.buf().cursor.saved == before.buf().cursor.saved
    &&& !after.buf().pending_wrap
    &&& after.buf().lines@ == before.buf().lines@
    &&& after.buf().same_settings(&before.buf())
    &&& after.same_outside(&before)
}

pub open spec fn did_scroll_up(before: Screen, after: Screen, amount: usize) -> bool {
    &&& ({
        let ob = before.buf();
        let top = ob.region_top();
        let bottom = ob.region_bottom();
        let k = if amount < bottom - top + 1 { amount as int } else { bottom - top + 1 };
        after.buf().lines_view() == spec_scrolled_up(spec_grow_to(ob.lines_view(), bottom), top, bottom, k)
    })
    &&& after.buf().cursor == before.buf().cursor
    &&& !after.buf().pending_wrap
    &&& after.buf().same_settings(&before.buf())
    &&& after.same_outside(&before)
}

pub open spec fn did_scroll_down(before: Screen, after: Screen, amount: usize) -> bool {
    &&& ({
        let ob = before.buf();
        let top = ob.region_top();
        let bottom = ob.region_bottom();
        let k = if amount < bottom - top + 1 { amount as int } else { bottom - top + 1 };
        after.buf().lines_view() == spec_scrolled_down(spec_grow_to(ob.lines_view(), bottom), top, bottom, k)
    })
    &&& after.buf().cursor == before.buf().cursor
    &&& !after.buf().pending_wrap
    &&& after.buf().same_settings(&before.buf())
    &&& after.same_outside(&before)
}

pub open spec fn did_insert_lines(before: Screen, after: Screen, amount: usize) -> bool {
    &&& ({
        let ob = before.buf();
        let top = ob.region_top();
        let bottom = ob.region_bottom();
        let row = ob.cursor.row as int;
        let grown = spec_grow_to(ob.lines_view(), bottom);
        let k = if amount < bottom - row + 1 { amount as int } else { bottom - row + 1 };
        &&& (top <= row <= bottom) ==> after.buf().lines_view() == spec_scrolled_down(grown, row, bottom, k)
        &&& (top <= row <= bottom) ==> !after.buf().pending_wrap
        &&& !(top <= row <= bottom) ==> after.buf().lines_view() == grown
        &&& !(top <= row <= bottom) ==> after.buf().pending_wrap == ob.pending_wrap
    })
    &&& after.buf().cursor == before.buf().cursor
    &&& after.buf().same_settings(&before.buf())
    &&& after.same_outside(&before)
}

pub open spec fn did_delete_lines(before: Screen, after: Screen, amount: usize) -> bool {
    &&& ({
        let ob = before.buf();
        let top = ob.region_top();
        let bottom = ob.region_bottom();
        let row = ob.cursor.row as int;
        let grown = spec_grow_to(ob.lines_view(), bottom);
        let k = if amount < bottom - row + 1 { amount as int } else { bottom - row + 1 };
        &&& (top <= row <= bottom) ==> after.buf().lines_view() == spec_scrolled_up(grown, row, bottom, k)
        &&& (top <= row <= bottom) ==> !after.buf().pending_wrap
        &&& !(top <= row <= bottom) ==> after.buf().lines_view() == grown
        &&& !(top <= row <= bottom) ==> after.buf().pending_wrap == ob.pending_wrap
    })
    &&& after.buf().cursor == before.buf().cursor
    &&& after.buf().same_settings(&before.buf())
    &&& after.same_outside(&before)
}

pub open spec fn did_move_cursor_to(before: Screen, after: Screen, position: CursorPosition) -> bool {
    &&& after.buf().cursor.row == before.buf().viewport_top() + position.row
    &&& after.buf().cursor.col == if position.col < before.buf().cols { position.col } else { (before.buf().cols - 1) as usize }
    &&& after.buf().cursor.saved == before.buf().cursor.saved
    &&& !after.buf().pending_wrap
    &&& after.buf().lines@ == before.buf().lines@
    &&& after.buf().same_settings(&before.buf())
    &&& after.same_outside(&before)
}

pub open spec fn did_move_cursor_to_row_absolute(before: Screen, after: Screen, row: usize) -> bool {
    &&& after.buf().cursor.row == before.buf().viewport_top() + spec_row_from_viewport(before.buf(), row as int)
    &&& after.buf().cursor.col == before.buf().cursor.col
    &&& after.buf().cursor.saved == before.buf().cursor.saved
    &&& !after.buf().pending_wrap
    &&& after.buf().lines_view() == spec_grow_to(before.buf().lines_view(), after.buf().cursor.row as int)
    &&& after.buf().same_settings(&before.buf())
    &&& after.same_outside(&before)
}

pub open spec fn did_move_cursor_up(before: Screen, after: Screen, amount: usize) -> bool {
    &&& ({
        let ob = before.buf();
        let bound = if ob.origin_mode { ob.region_top() } else { ob.viewport_top() };
        let lower = if bound < ob.cursor.row { bound } else { ob.cursor.row as int };
        let up = ob.cursor.row - amount;
        &&& after.buf().cursor.row == if up > lower { up } else { lower }
        &&& after.buf().lines_view() == if ob.origin_mode { spec_grow_to(ob.lines_view(), ob.region_bottom()) } else { ob.lines_view() }
    })
    &&& after.buf().cursor.col == before.buf().cursor.col
    &&& after.buf().cursor.saved == before.buf().cursor.saved
    &&& !after.buf().pending_wrap
    &&& after.buf().same_settings(&before.buf())
    &&& after.same_outside(&before)
}

pub open spec fn did_move_cursor_down(before: Screen, after: Screen, amount: usize) -> bool {
    &&& ({
        let ob = before.buf();
        let bound = if ob.origin_mode { ob.region_bottom() } else { ob.row_limit() - 1 };
        let upper = if bound > ob.cursor.row { bound } else { ob.cursor.row as int };
        let down = ob.cursor.row + amount;
        let next = if down < upper { down } else { upper };
        &&& after.buf().cursor.row == next
        &&& after.buf().lines_view() == if ob.origin_mode {
                spec_grow_to(spec_grow_to(ob.lines_view(), ob.region_bottom()), next)
            } else { spec_grow_to(ob.lines_view(), next) }
    })
    &&& after.buf().cursor.col == before.buf().cursor.col
    &&& after.buf().cursor.saved == before.buf().cursor.saved
    &&& !after.buf().pending_wrap
    &&& after.buf().same_settings(&before.buf())
    &&& after.same_outside(&before)
}

pub open spec fn did_set_scroll_region(before: Screen, after: Screen, top: usize, bottom: Option<usize>) -> bool {
    &&& ({
        let rows = before.buf().rows as int;
        let t = if top == 0 { 0 } else if top - 1 < rows - 1 { top - 1 } else { rows - 1 };
        let raw = match bottom { Some(b) => b as int, None => rows };
        let b0 = if raw == 0 { 0 } else { raw - 1 };
        let b = if b0 < t { t } else if b0 < rows - 1 { b0 } else { rows - 1 };
        after.buf().scroll_region == (t as usize, b as usize)
    })
    &&& after.buf().scroll_region_active
    &&& after.buf().cursor.row == before.buf().viewport_top()
    &&& after.buf().cursor.col == 0
    &&& after.buf().cursor.saved == before.buf().cursor.saved
    &&& !after.buf().pending_wrap
    &&& after.buf().lines@ == before.buf().lines@
    &&& after.same_outside(&before)
}

pub open spec fn did_insert_blank_characters(before: Screen, after: Screen, amount: usize) -> bool {
    &&& ({
        let ob = before.buf();
        let row = ob.cursor.row as int;
        let col = ob.cursor.col as int;
        let grown = spec_grow_to(ob.lines_view(), row);
        let padded = spec_pad(grown[row], col, ScreenCell::spec_blank(CellStyle::spec_plain()));
        let k = if amount < ob.cols - col { amount as int } else { ob.cols - col };
        after.buf().lines_view() == grown.update(row,
            spec_truncate(spec_insert(padded, col, k, ScreenCell::spec_blank(ob.style)), ob.cols as int))
    })
    &&& after.buf().cursor == before.buf().cursor
    &&& !after.buf().pending_wrap
    &&& after.buf().same_settings(&before.buf())
    &&& after.same_outside(&before)
}

pub open spec fn did_delete_characters(before: Screen, after: Screen, amount: usize) -> bool {
    &&& ({
        let ob = before.buf();
        let row = ob.cursor.row as int;
        let col = ob.cursor.col as int;
        let grown = spec_grow_to(ob.lines_view(), row);
        let line = grown[row];
        let k = if amount < line.len() - col { amount as int } else { line.len() - col };
        after.buf().lines_view() == if col < line.len() { grown.update(row, spec_remove(line, col, k)) } else { grown }
    })
    &&& after.buf().cursor == before.buf().cursor
    &&& after.buf().pending_wrap == before.buf().pending_wrap
    &&& after.buf().same_settings(&before.buf())
    &&& after.same_outside(&before)
}

pub open spec fn did_backspace(before: Screen, after: Screen) -> bool {
    &&& ({
        let ob = before.buf();
        let row = ob.cursor.row as int;
        let col = ob.cursor.col - 1;
        &&& ob.cursor.col == 0 ==> after.buf().cursor == ob.cursor && after.buf().lines@ == ob.lines@
        &&& ob.cursor.col > 0 ==> after.buf().cursor == (Cursor { col: col as usize, ..ob.cursor })
        &&& ob.cursor.col > 0 && row < ob.lines@.len() && col < ob.lines_view()[row].len() ==>
            after.buf().lines_view() == ob.lines_view().update(row, ob.lines_view()[row].remove(col))
        &&& ob.cursor.col > 0 && !(row < ob.lines@.len() && col < ob.lines_view()[row].len()) ==>
            after.buf().lines@ == ob.lines@
    })
    &&& !after.buf().pending_wrap
    &&& after.buf().same_settings(&before.buf())
    &&& after.same_outside(&before)
}

pub open spec fn did_erase_characters(before: Screen, after: Screen, amount: usize) -> bool {
    &&& after.buf().lines_view() == spec_erase_characters(before.buf(), amount as int)
    &&& after.buf().cursor == before.buf().cursor
    &&& after.buf().pending_wrap == before.buf().pending_wrap
    &&& after.buf().same_settings(&before.buf())
    &&& after.same_outside(&before)
}

pub open spec fn did_erase_line(before: Screen, after: Screen, mode: EraseMode) -> bool {
    &&& after.buf().lines_view() == ({
        let ob = before.buf();
        let row = ob.cursor.row as int;
        let grown = spec_grow_to(ob.lines_view(), row);
        grown.update(row, spec_erase_line(grown[row], ob.cursor.col as int, ob.cols as int, ob.style, mode))
    })
    &&& after.buf().cursor == before.buf().cursor
    &&& after.buf().pending_wrap == before.buf().pending_wrap
    &&& after.buf().same_settings(&before.buf())
    &&& after.same_outside(&before)
}

pub open spec fn did_erase_display(before: Screen, after: Screen, mode: EraseMode) -> bool {
    &&& after.buf().lines_view() == spec_erase_display(before.buf(), mode)
    &&& after.buf().cursor == before.buf().cursor
    &&& after.buf().pending_wrap == before.buf().pending_wrap
    &&& after.buf().same_settings(&before.buf())
    &&& after.same_outside(&before)
}

pub open spec fn did_tab_forward(before: Screen, after: Screen, amount: usize) -> bool {
    &&& after.buf().cursor.col == spec_tab_forward(before.buf().tab_stops@, before.buf().cursor.col as int, amount as int, before.buf().cols - 1)
    &&& after.buf().cursor.row == before.buf().cursor.row
    &&& after.buf().cursor.saved == before.buf().cursor.saved
    &&& !after.buf().pending_wrap
    &&& after.buf().lines@ == before.buf().lines@
    &&& after.buf().same_settings(&before.buf())
    &&& after.same_outside(&before)
}

pub open spec fn did_tab_backward(before: Screen, after: Screen, amount: usize) -> bool {
    &&& after.buf().cursor.col == spec_tab_backward(before.buf().tab_stops@, before.buf().cursor.col as int, amount as int)
    &&& after.buf().cursor.row == before.buf().cursor.row
    &&& after.buf().cursor.saved == before.buf().cursor.saved
    &&& !after.buf().pending_wrap
    &&& after.buf().lines@ == before.buf().lines@
    &&& after.buf().same_settings(&before.buf())
    &&& after.same_outside(&before)
}

pub open spec fn did_tab(before: Screen, after: Screen) -> bool {
    &&& after.buf().cursor.col == spec_tab_forward(before.buf().tab_stops@, before.buf().cursor.col as int, 1, before.buf().cols - 1)
    &&& after.buf().cursor.row == before.buf().cursor.row
    &&& !after.buf().pending_wrap
    &&& after.buf().lines@ == before.buf().lines@
    &&& after.buf().same_settings(&before.buf())
    &&& after.same_outside(&before)
}

pub open spec fn did_clear_tab_stop(before: Screen, after: Screen, mode: TabClearMode) -> bool {
    &&& after.buf().tab_stops@ == match mode {
        TabClearMode::Current => before.buf().tab_stops@.update(before.buf().cursor.col as int, false),
        TabClearMode::All => spec_repeat(false, before.buf().cols as int),
    }
    &&& after.buf().cursor == before.buf().cursor
    &&& after.buf().lines@ == before.buf().lines@
    &&& after.buf().pending_wrap == before.buf().pending_wrap
    &&& after.buf().cols == before.buf().cols
    &&& after.buf().rows == before.buf().rows
    &&& after.buf().style == before.buf().style
    &&& after.same_outside(&before)
}

/// Where IND leaves the rows and the cursor row: one row down, or, on the bottom row of an
/// active scroll region, the region scrolled up by one with the cursor staying.
pub open spec fn spec_index_move(
    lines: Seq<Seq<ScreenCell>>,
    row: int,
    rows: int,
    region: (usize, usize),
    active: bool,
) -> (Seq<Seq<ScreenCell>>, int) {
    let top = spec_viewport_top(lines.len() as int, rows) + region.0;
    let bottom = spec_viewport_top(lines.len() as int, rows) + region.1;
    if active && top <= row && row == bottom {
        (spec_scrolled_up(spec_grow_to(lines, bottom), top, bottom, 1), row)
    } else {
        (spec_grow_to(if active { spec_grow_to(lines, bottom) } else { lines }, row + 1), row + 1)
    }
}

/// The rows and cursor row of a buffer after IND.
pub open spec fn spec_indexed(b: ScreenBuffer) -> (Seq<Seq<ScreenCell>>, int) {
    spec_index_move(b.lines_view(), b.cursor.row as int, b.rows as int, b.scroll_region, b.scroll_region_active)
}

pub open spec fn did_index(before: Screen, after: Screen) -> bool {
    &&& after.buf().lines_view() == spec_indexed(before.buf()).0
    &&& after.buf().cursor.row == spec_indexed(before.buf()).1
    &&& after.buf().cursor.col == before.buf().cursor.col
    &&& after.buf().cursor.saved == before.buf().cursor.saved
    &&& !after.buf().pending_wrap
    &&& after.buf().same_settings(&before.buf())
    &&& after.same_outside(&before)
}

/// NEL and a line wrap: IND, then the first column.
pub open spec fn did_advance_to_next_line(before: Screen, after: Screen) -> bool {
    &&& after.buf().lines_view() == spec_indexed(before.buf()).0
    &&& after.buf().cursor.row == spec_indexed(before.buf()).1
    &&& after.buf().cursor.col == 0
    &&& after.buf().cursor.saved == before.buf().cursor.saved
    &&& !after.buf().pending_wrap
    &&& after.buf().same_settings(&before.buf())
    &&& after.same_outside(&before)
}

/// Where a printed character lands: after a pending wrap (with auto-wrap on) and after a
/// wrap for a two-column character that does not fit, as rows, cursor row and column.
pub open spec fn spec_print_landing(b: ScreenBuffer, w: int) -> (Seq<Seq<ScreenCell>>, int, int) {
    let rows = b.rows as int;
    let wrap1 = b.pending_wrap && b.auto_wrap;
    let first = if wrap1 { spec_indexed(b) } else { (b.lines_view(), b.cursor.row as int) };
    let col1 = if wrap1 { 0 } else { b.cursor.col as int };
    if w == 2 && col1 + 1 >= b.cols {
        let second = spec_index_move(first.0, first.1, rows, b.scroll_region, b.scroll_region_active);
        (second.0, second.1, 0)
    } else {
        (first.0, first.1, col1)
    }
}

/// What printing `c` does: DEL and BS print nothing; else the character (and the right
/// half of a two-column one) is written where it lands, in insert mode shifting the rest of
/// the row, and the cursor advances, a wrap becoming pending at the right edge.
pub open spec fn did_put_char(before: Screen, after: Screen, c: char) -> bool {
    if c == '\u{7f}' || c == '\u{8}' {
        after == before
    } else {
        let ob = before.buf();
        let fb = after.buf();
        let w = spec_cell_width(c);
        let (lines, row, col) = spec_print_landing(ob, w);
        let grown = spec_grow_to(lines, row);
        let padded = spec_pad(grown[row], col, ScreenCell::spec_blank(CellStyle::spec_plain()));
        &&& fb.lines_view() == grown.update(row, spec_put_line(padded, col, c, ob.style, w, ob.insert_mode, ob.cols as int))
        &&& fb.cursor.row == row
        &&& fb.cursor.col == if col + w >= ob.cols { ob.cols - 1 } else { col + w }
        &&& fb.cursor.saved == ob.cursor.saved
        &&& fb.pending_wrap == (col + w >= ob.cols)
        &&& fb.same_settings(&ob)
        &&& after.last_printed == Some(c)
        &&& after.primary_screen == before.primary_screen
        &&& after.mouse == before.mouse
        &&& after.history_start == before.history_start
    }
}

/// `steps` is a run of screens from `before` to `after`, each one `c` printed on the one before.
pub open spec fn is_print_chain(steps: Seq<Screen>, before: Screen, after: Screen, c: char, n: nat) -> bool {
    &&& steps.len() == n + 1
    &&& steps[0] == before
    &&& steps[n as int] == after
    &&& forall|i: int| 0 <= i < n ==> #[trigger] did_put_char(steps[i], steps[i + 1], c)
}

/// REP: `c` printed `n` times.
pub open spec fn did_print_repeatedly(before: Screen, after: Screen, c: char, n: nat) -> bool {
    exists|steps: Seq<Screen>| #[trigger] is_print_chain(steps, before, after, c, n)
}

proof fn lemma_print_nothing(before: Screen, c: char)
    ensures
        did_print_repeatedly(before, before, c, 0),
{
    assert(is_print_chain(seq![before], before, before, c, 0));
}

proof fn lemma_print_one_more(before: Screen, mid: Screen, after: Screen, c: char, n: nat)
    requires
        did_print_repeatedly(before, mid, c, n),
        did_put_char(mid, after, c),
    ensures
        did_print_repeatedly(before, after, c, n + 1),
{
    let steps = choose|steps: Seq<Screen>| #[trigger] is_print_chain(steps, before, mid, c, n);
    let longer = steps.push(after);
    assert forall|i: int| 0 <= i < n + 1 implies #[trigger] did_put_char(longer[i], longer[i + 1], c) by {
        if i < n {
            assert(longer[i] == steps[i] && longer[i + 1] == steps[i + 1]);
        }
    }
    assert(is_print_chain(longer, before, after, c, n + 1));
}

/// REP: the last printed character, if any, printed `amount` more times.
pub open spec fn did_repeat_preceding_character(before: Screen, after: Screen, amount: usize) -> bool {
    match before.last_printed {
        Some(c) => did_print_repeatedly(before, after, c, amount as nat),
        None => after == before,
    }
}

/// A C0 control: LF indexes, CR returns, BS and DEL back up, HT tabs; others do nothing.
pub open spec fn did_apply_execute(before: Screen, after: Screen, byte: u8) -> bool {
    if byte == 0x0a {
        did_index(before, after)
    } else if byte == 0x0d {
        did_carriage_return(before, after)
    } else if byte == 0x08 || byte == 0x7f {
        did_backspace(before, after)
    } else if byte == 0x09 {
        did_tab(before, after)
    } else {
        after == before
    }
}

/// One mode of SM (`enabled`) or RM (not `enabled`).
pub open spec fn did_set_mode(before: Screen, after: Screen, private: bool, mode: u16, enabled: bool) -> bool {
    let b = before.buf();
    if private && mode == 6 {
        after == Screen { screen_buffer: ScreenBuffer { origin_mode: enabled, ..b }, ..before }
    } else if private && mode == 7 {
        after == Screen { screen_buffer: ScreenBuffer { auto_wrap: enabled, ..b }, ..before }
    } else if private && mode == 25 {
        after == Screen { screen_buffer: ScreenBuffer { cursor_visible: enabled, ..b }, ..before }
    } else if private && (mode == 47 || mode == 1047) {
        if enabled { spec_entered_alternate(before, after, false) } else { spec_left_alternate(before, after, false) }
    } else if private && mode == 1048 {
        if enabled { spec_saved_cursor(before, after) } else { spec_restored_cursor(before, after) }
    } else if private && mode == 1049 {
        if enabled { spec_entered_alternate(before, after, true) } else { spec_left_alternate(before, after, true) }
    } else if private {
        after == Screen { mouse: spec_mouse_set(before.mouse, mode, enabled), ..before }
    } else if mode == 4 {
        after == Screen { screen_buffer: ScreenBuffer { insert_mode: enabled, ..b }, ..before }
    } else {
        after == before
    }
}

/// `steps` is a run of screens from `before` to `after`, each one the next of `modes` applied to the one before.
pub open spec fn is_mode_chain(steps: Seq<Screen>, before: Screen, after: Screen, private: bool, modes: Seq<u16>, enabled: bool) -> bool {
    &&& steps.len() == modes.len() + 1
    &&& steps[0] == before
    &&& steps[modes.len() as int] == after
    &&& forall|i: int| 0 <= i < modes.len() ==> #[trigger] did_set_mode(steps[i], steps[i + 1], private, modes[i], enabled)
}

/// Each of `modes` applied in turn.
pub open spec fn did_set_modes(before: Screen, after: Screen, private: bool, modes: Seq<u16>, enabled: bool) -> bool {
    exists|steps: Seq<Screen>| #[trigger] is_mode_chain(steps, before, after, private, modes, enabled)
}

proof fn lemma_set_no_modes(before: Screen, private: bool, modes: Seq<u16>, enabled: bool)
    requires
        modes.len() == 0,
    ensures
        did_set_modes(before, before, private, modes, enabled),
{
    assert(is_mode_chain(seq![before], before, before, private, modes, enabled));
}

proof fn lemma_set_one_more_mode(before: Screen, mid: Screen, after: Screen, private: bool, modes: Seq<u16>, enabled: bool)
    requires
        modes.len() > 0,
        did_set_modes(before, mid, private, modes.drop_last(), enabled),
        did_set_mode(mid, after, private, modes.last(), enabled),
    ensures
        did_set_modes(before, after, private, modes, enabled),
{
    let shorter = modes.drop_last();
    let steps = choose|steps: Seq<Screen>| #[trigger] is_mode_chain(steps, before, mid, private, shorter, enabled);
    let longer = steps.push(after);
    assert forall|i: int| 0 <= i < modes.len() implies #[trigger] did_set_mode(longer[i], longer[i + 1], private, modes[i], enabled) by {
        if i < shorter.len() {
            assert(longer[i] == steps[i] && longer[i + 1] == steps[i + 1]);
            assert(modes[i] == shorter[i]);
        }
    }
    assert(is_mode_chain(longer, before, after, private, modes, enabled));
}

/// An OSC sequence: the cursor color is set or reset; nothing else changes.
pub open spec fn did_apply_osc(before: Screen, after: Screen, message: OscMessage) -> bool {
    let b = before.buf();
    after == Screen {
        screen_buffer: ScreenBuffer {
            cursor_color: match message {
                OscMessage::SetCursorColor(c) => Some(c),
                OscMessage::ResetCursorColor => None,
                _ => b.cursor_color,
            },
            ..b
        },
        ..before
    }
}

/// An ESC sequence, by the operation it names.
pub open spec fn did_apply_esc(before: Screen, after: Screen, message: EscMessage) -> bool {
    match message {
        EscMessage::SaveCursor => spec_saved_cursor(before, after),
        EscMessage::RestoreCursor => spec_restored_cursor(before, after),
        EscMessage::Index => did_index(before, after),
        EscMessage::NextLine => did_advance_to_next_line(before, after),
        EscMessage::ReverseIndex => did_reverse_index(before, after),
        EscMessage::Reset => did_reset(before, after),
        EscMessage::Unknown => after == before,
    }
}

/// A one-based parameter as a zero-based position.
pub open spec fn spec_zero_based(n: u16) -> usize {
    if n > 0 { (n - 1) as usize } else { 0 }
}

/// A CSI sequence, by the editing operation it names.
pub open spec fn did_apply_csi(before: Screen, after: Screen, message: CsiMessage) -> bool {
    match message {
        CsiMessage::CursorUp(n) => did_move_cursor_up(before, after, n as usize),
        CsiMessage::CursorDown(n) => did_move_cursor_down(before, after, n as usize),
        CsiMessage::CursorForward(n) => did_move_cursor_forward(before, after, n as usize),
        CsiMessage::CursorBackward(n) => did_move_cursor_backward(before, after, n as usize),
        CsiMessage::CursorNextLine(n) => exists|mid: Screen| #[trigger] did_move_cursor_down(before, mid, n as usize)
            && did_carriage_return(mid, after),
        CsiMessage::CursorPreviousLine(n) => exists|mid: Screen| #[trigger] did_move_cursor_up(before, mid, n as usize)
            && did_carriage_return(mid, after),
        CsiMessage::CursorHorizontalAbsolute(col) => did_move_cursor_to_col(before, after, spec_zero_based(col)),
        CsiMessage::CursorVerticalAbsolute(row) => did_move_cursor_to_row_absolute(before, after, spec_zero_based(row)),
        CsiMessage::CursorHorizontalRelative(n) => did_move_cursor_forward(before, after, n as usize),
        CsiMessage::CursorVerticalRelative(n) => did_move_cursor_down(before, after, n as usize),
        CsiMessage::CursorPosition { row, col } => did_move_cursor_to(
            before,
            after,
            CursorPosition {
                row: spec_row_from_viewport(before.buf(), spec_zero_based(row) as int) as usize,
                col: spec_zero_based(col),
            },
        ),
        CsiMessage::EraseDisplay(mode) => did_erase_display(before, after, mode),
        CsiMessage::EraseLine(mode) => did_erase_line(before, after, mode),
        CsiMessage::EraseCharacters(n) => did_erase_characters(before, after, n as usize),
        CsiMessage::DeleteCharacters(n) => did_delete_characters(before, after, n as usize),
        CsiMessage::InsertBlankCharacters(n) => did_insert_blank_characters(before, after, n as usize),
        CsiMessage::InsertLines(n) => did_insert_lines(before, after, n as usize),
        CsiMessage::DeleteLines(n) => did_delete_lines(before, after, n as usize),
        CsiMessage::ScrollUp(n) => did_scroll_up(before, after, n as usize),
        CsiMessage::ScrollDown(n) => did_scroll_down(before, after, n as usize),
        CsiMessage::SetScrollRegion { top, bottom } => did_set_scroll_region(
            before,
            after,
            top as usize,
            match bottom {
                Some(b) => Some(b as usize),
                None => None,
            },
        ),
        CsiMessage::CursorForwardTabulation(n) => did_tab_forward(before, after, n as usize),
        CsiMessage::CursorBackwardTabulation(n) => did_tab_backward(before, after, n as usize),
        CsiMessage::TabClear(mode) => did_clear_tab_stop(before, after, mode),
        CsiMessage::RepeatPrecedingCharacter(n) => did_repeat_preceding_character(before, after, n as usize),
        CsiMessage::SaveCursor => spec_saved_cursor(before, after),
        CsiMessage::RestoreCursor => spec_restored_cursor(before, after),
        CsiMessage::SelectGraphicRendition(params) => after == Screen {
            screen_buffer: ScreenBuffer { style: sgr::spec_apply_from(before.buf().style, params@, 0), ..before.buf() },
            ..before
        },
        CsiMessage::SetMode { private, modes } => did_set_modes(before, after, private, modes@, true),
        CsiMessage::ResetMode { private, modes } => did_set_modes(before, after, private, modes@, false),
        CsiMessage::DeviceStatusReport(_) => after == before,
        CsiMessage::Unknown => after == before,
    }
}

pub open spec fn did_reverse_index(before: Screen, after: Screen) -> bool {
    &&& ({
        let ob = before.buf();
        let row = ob.cursor.row as int;
        let at_top = ob.scroll_region_active && row <= ob.region_bottom() && row == ob.region_top();
        &&& at_top ==> after.buf().cursor.row == row
            && after.buf().lines_view() == spec_scrolled_down(spec_grow_to(ob.lines_view(), ob.region_bottom()), ob.region_top(), ob.region_bottom(), 1)
        &&& !at_top ==> after.buf().cursor.row == if row > 0 { row - 1 } else { 0 }
            && after.buf().lines_view() == if ob.scroll_region_active { spec_grow_to(ob.lines_view(), ob.region_bottom()) } else { ob.lines_view() }
    })
    &&& after.buf().cursor.col == before.buf().cursor.col
    &&& after.buf().cursor.saved == before.buf().cursor.saved
    &&& !after.buf().pending_wrap
    &&& after.buf().same_settings(&before.buf())
    &&& after.same_outside(&before)
}

pub open spec fn did_reset(before: Screen, after: Screen) -> bool {
    &&& spec_is_fresh(after.buf(), before.buf().cols, before.buf().rows)
    &&& after.primary_screen is None
    &&& after.last_printed is None
    &&& after.mouse == (MouseMode { tracking: 0, sgr: false })
    &&& after.history_start == before.history_start
}

pub open spec fn did_limit_history(before: Screen, after: Screen) -> bool {
    &&& ({
        let ob = before.buf();
        let max = if before.primary_screen is Some { 0 } else { MAX_HISTORY as int };
        let len = ob.lines@.len() as int;
        let excess = len - ob.rows - max;
        &&& excess > 0 ==> after.buf().lines_view() == ob.lines_view().subrange(excess, len)
        &&& excess > 0 ==> after.buf().cursor.row == if ob.cursor.row >= excess { ob.cursor.row - excess } else { 0 }
        &&& excess > 0 ==> after.buf().cursor.saved == match ob.cursor.saved {
                Some(p) => Some(CursorPosition { row: if p.row >= excess { (p.row - excess) as usize } else { 0usize }, col: p.col }),
                None => None,
            }
        &&& excess > 0 ==> after.history_start == if before.history_start + excess > usize::MAX { usize::MAX as int } else { before.history_start + excess }
        &&& excess <= 0 ==> after == before
        &&& after.buf().lines@.len() <= ob.rows + max
    })
    &&& after.buf().cursor.col == before.buf().cursor.col
    &&& after.buf().pending_wrap == before.buf().pending_wrap
    &&& after.buf().same_settings(&before.buf())
    &&& after.primary_screen == before.primary_screen
    &&& after.last_printed == before.last_printed
    &&& after.mouse == before.mouse
}

/// What DECSC does: the cursor position is saved; nothing else changes.
pub open spec fn spec_saved_cursor(before: Screen, after: Screen) -> bool {
    &&& after.buf().cursor == (Cursor {
        saved: Some(CursorPosition { row: before.buf().cursor.row, col: before.buf().cursor.col }),
        ..before.buf().cursor
    })
    &&& after.buf().lines@ == before.buf().lines@
    &&& after.buf().pending_wrap == before.buf().pending_wrap
    &&& after.buf().same_settings(&before.buf())
    &&& after.same_outside(&before)
}

/// What DECRC does: the cursor goes back to the saved position, kept inside the screen,
/// with rows added down to it; without a saved position nothing changes.
pub open spec fn spec_restored_cursor(before: Screen, after: Screen) -> bool {
    &&& match before.buf().cursor.saved {
        Some(pos) => {
            let ob = before.buf();
            let row = if pos.row < ob.row_limit() { pos.row as int } else { ob.row_limit() - 1 };
            &&& after.buf().cursor.row == row
            &&& after.buf().cursor.col == if pos.col < ob.cols { pos.col as int } else { ob.cols - 1 }
            &&& after.buf().cursor.saved == ob.cursor.saved
            &&& !after.buf().pending_wrap
            &&& after.buf().lines_view() == spec_grow_to(ob.lines_view(), row)
        },
        None => after.buf().cursor == before.buf().cursor && after.buf().lines@ == before.buf().lines@
            && after.buf().pending_wrap == before.buf().pending_wrap,
    }
    &&& after.buf().same_settings(&before.buf())
    &&& after.same_outside(&before)
}

/// Saving the cursor and restoring it right after leaves it where it was, on the same rows.
pub proof fn lemma_restore_after_save(s0: Screen, s1: Screen, s2: Screen)
    requires
        s0.wf(),
        spec_saved_cursor(s0, s1),
        spec_restored_cursor(s1, s2),
    ensures
        s2.buf().cursor.row == s0.buf().cursor.row,
        s2.buf().cursor.col == s0.buf().cursor.col,
        s2.buf().lines_view() == spec_grow_to(s0.buf().lines_view(), s0.buf().cursor.row as int),
{
}

/// What entering the alternate screen does: from the primary screen, it keeps the primary
/// buffer aside (with the cursor saved in it when `save_cursor`) and shows an empty
/// buffer of the same size; on the alternate screen already, nothing.
pub open spec fn spec_entered_alternate(before: Screen, after: Screen, save_cursor: bool) -> bool {
    &&& before.primary_screen is Some ==> after == before
    &&& before.primary_screen is None ==> {
        &&& after.primary_screen matches Some(p) && p.lines@ == before.buf().lines@
            && p.cursor.row == before.buf().cursor.row && p.cursor.col == before.buf().cursor.col
            && p.cols == before.buf().cols && p.rows == before.buf().rows
            && (save_cursor ==> p.cursor.saved == Some(CursorPosition { row: before.buf().cursor.row, col: before.buf().cursor.col }))
            && (!save_cursor ==> p.cursor.saved == before.buf().cursor.saved)
        &&& spec_is_fresh(after.buf(), before.buf().cols, before.buf().rows)
        &&& after.last_printed is None
    }
    &&& after.mouse == before.mouse
    &&& after.history_start == before.history_start
}

/// What leaving the alternate screen does: the primary buffer comes back, with its saved
/// cursor restored when `restore_cursor` (kept inside the screen, rows added as needed);
/// on the primary screen already, the buffer stays.
pub open spec fn spec_left_alternate(before: Screen, after: Screen, restore_cursor: bool) -> bool {
    &&& after.primary_screen is None
    &&& after.last_printed is None
    &&& match before.primary_screen {
        Some(p) => {
            &&& after.buf().cols == p.cols
            &&& after.buf().rows == p.rows
            &&& !restore_cursor ==> after.buf().lines@ == p.lines@ && after.buf().cursor == p.cursor
            &&& restore_cursor && p.cursor.saved is None ==> after.buf().lines@ == p.lines@ && after.buf().cursor == p.cursor
            &&& restore_cursor ==> after.buf().cursor.saved == p.cursor.saved
            &&& restore_cursor ==> (p.cursor.saved matches Some(pos) ==> {
                    let row = if pos.row < p.row_limit() { pos.row as int } else { p.row_limit() - 1 };
                    &&& after.buf().cursor.row == row
                    &&& after.buf().cursor.col == if pos.col < p.cols { pos.col as int } else { p.cols - 1 }
                    &&& after.buf().lines_view() == spec_grow_to(p.lines_view(), row)
                })
        },
        None => after.buf() == before.buf(),
    }
    &&& after.mouse == before.mouse
    &&& after.history_start == before.history_start
}

/// Entering the alternate screen and leaving it again brings back the primary screen:
/// its rows and its cursor. With the cursor saved on entry and restored on leaving
/// (mode 1049), rows down to the cursor are added if the cursor stood below the last one.
pub proof fn lemma_alternate_screen_round_trip(s0: Screen, s1: Screen, s2: Screen, with_cursor: bool)
    requires
        s0.wf(),
        s0.primary_screen is None,
        spec_entered_alternate(s0, s1, with_cursor),
        spec_left_alternate(s1, s2, with_cursor),
    ensures
        s2.primary_screen is None,
        s2.buf().cursor.row == s0.buf().cursor.row,
        s2.buf().cursor.col == s0.buf().cursor.col,
        s2.buf().cols == s0.buf().cols,
        s2.buf().rows == s0.buf().rows,
        !with_cursor ==> s2.buf().lines@ == s0.buf().lines@,
        with_cursor ==> s2.buf().lines_view() == spec_grow_to(s0.buf().lines_view(), s0.buf().cursor.row as int),
{
}

pub open spec fn spec_grow_to(v: Seq<Seq<ScreenCell>>, upto: int) -> Seq<Seq<ScreenCell>> {
    if v.len() > upto { v } else { v + spec_repeat(Seq::<ScreenCell>::empty(), upto + 1 - v.len()) }
}

pub proof fn lemma_grow_len(v: Seq<Seq<ScreenCell>>, upto: int)
    ensures
        spec_grow_to(v, upto).len() > upto,
        spec_grow_to(v, upto).len() >= v.len(),
        forall|b: int| b <= upto ==> #[trigger] spec_grow_to(spec_grow_to(v, upto), b) == spec_grow_to(v, upto),
{
}

/// The row, relative to the screen, that CUP and VPA move to for a zero-based row number.
pub open spec fn spec_row_from_viewport(b: ScreenBuffer, row: int) -> int {
    let r = if row < b.rows - 1 { row } else { b.rows - 1 };
    if b.origin_mode {
        let shifted = b.scroll_region.0 + r;
        if shifted < b.scroll_region.1 { shifted } else { b.scroll_region.1 as int }
    } else {
        r
    }
}

} // verus!
