use vstd::prelude::*;

verus! {

/// `a - b`, or zero when `b` is larger.
pub open spec fn spec_sat_sub(a: int, b: int) -> int {
    if a > b { a - b } else { 0 }
}

/// The smaller of two integers.
pub open spec fn spec_min(a: int, b: int) -> int {
    if a <= b { a } else { b }
}

/// Which rows of the scrollback are on screen: `scroll_offset` rows above the bottom,
/// `visible_rows` rows tall.
#[derive(Clone, Copy, Debug, PartialEq, Eq)]
pub struct ViewportState {
    scroll_offset: usize,
    visible_rows: usize,
}

impl ViewportState {
    pub closed spec fn spec_offset(&self) -> usize {
        self.scroll_offset
    }

    pub closed spec fn spec_visible_rows(&self) -> usize {
        self.visible_rows
    }

    /// The screen always shows at least one row.
    pub closed spec fn wf(&self) -> bool {
        self.visible_rows >= 1
    }

    /// The first and one past the last row on screen.
    pub open spec fn spec_range(&self, row_count: int) -> (int, int) {
        let end = spec_sat_sub(row_count, self.spec_offset() as int);
        (spec_sat_sub(end, self.spec_visible_rows() as int), end)
    }

    /// The furthest the view can scroll up: until the first row is at the top.
    pub open spec fn spec_max_offset(&self, row_count: int) -> int {
        spec_sat_sub(row_count, self.spec_visible_rows() as int)
    }

    /// The rows on screen lie within the rows there are, and are never more than fit.
    pub proof fn lemma_range_fits(&self, row_count: int)
        requires
            row_count >= 0,
        ensures
            0 <= self.spec_range(row_count).0 <= self.spec_range(row_count).1 <= row_count,
            self.spec_range(row_count).1 - self.spec_range(row_count).0 <= self.spec_visible_rows(),
            self.spec_offset() <= self.spec_max_offset(row_count) && self.wf() && row_count >= self.spec_visible_rows()
                ==> self.spec_range(row_count).1 - self.spec_range(row_count).0 == self.spec_visible_rows(),
    {
    }

    /// A view at the bottom showing `visible_rows` rows, at least one.
    pub fn new(visible_rows: usize) -> (viewport: ViewportState)
        ensures
            viewport.wf(),
            viewport.spec_offset() == 0,
            viewport.spec_visible_rows() == if visible_rows >= 1 { visible_rows } else { 1 },
    {
        ViewportState { scroll_offset: 0, visible_rows: if visible_rows >= 1 { visible_rows } else { 1 } }
    }

    /// A new screen height in rows, at least one; the offset is clamped again.
    pub fn resize(&mut self, visible_rows: usize, row_count: usize)
        ensures
            final(self).wf(),
            final(self).spec_visible_rows() == if visible_rows >= 1 { visible_rows } else { 1 },
            final(self).spec_offset() == spec_min(
                old(self).spec_offset() as int,
                spec_sat_sub(row_count as int, final(self).spec_visible_rows() as int),
            ),
    {
        self.visible_rows = if visible_rows >= 1 { visible_rows } else { 1 };
        self.clamp(row_count);
    }

    pub fn visible_rows(&self) -> (rows: usize)
        ensures
            rows == self.spec_visible_rows(),
    {
        self.visible_rows
    }

    /// The rows on screen as `(start, end)`.
    pub fn visible_range(&self, row_count: usize) -> (range: (usize, usize))
        ensures
            range.0 == self.spec_range(row_count as int).0,
            range.1 == self.spec_range(row_count as int).1,
    {
        let end = if row_count > self.scroll_offset { row_count - self.scroll_offset } else { 0 };
        let start = if end > self.visible_rows { end - self.visible_rows } else { 0 };
        (start, end)
    }

    fn max_scroll_offset(&self, row_count: usize) -> (max: usize)
        ensures
            max == self.spec_max_offset(row_count as int),
    {
        if row_count > self.visible_rows { row_count - self.visible_rows } else { 0 }
    }

    /// Keeps the view from scrolling past the first row.
    pub fn clamp(&mut self, row_count: usize)
        ensures
            final(self).spec_visible_rows() == old(self).spec_visible_rows(),
            final(self).wf() == old(self).wf(),
            final(self).spec_offset() == spec_min(
                old(self).spec_offset() as int,
                old(self).spec_max_offset(row_count as int),
            ),
    {
        let max = self.max_scroll_offset(row_count);
        if self.scroll_offset > max {
            self.scroll_offset = max;
        }
    }

    /// Back to the bottom.
    pub fn reset(&mut self)
        ensures
            final(self).spec_visible_rows() == old(self).spec_visible_rows(),
            final(self).wf() == old(self).wf(),
            final(self).spec_offset() == 0,
    {
        self.scroll_offset = 0;
    }

    pub fn is_at_bottom(&self) -> (bottom: bool)
        ensures
            bottom == (self.spec_offset() == 0),
    {
        self.scroll_offset == 0
    }

    /// Scrolls so that `start` is the first row on screen, as far as the rows allow.
    pub fn scroll_to_start(&mut self, start: usize, row_count: usize)
        ensures
            final(self).spec_visible_rows() == old(self).spec_visible_rows(),
            final(self).wf() == old(self).wf(),
            final(self).spec_offset() == ({
                let vr = old(self).spec_visible_rows() as int;
                let first = spec_min(start as int, spec_sat_sub(row_count as int, vr));
                let end = spec_min(first + vr, row_count as int);
                spec_min(spec_sat_sub(row_count as int, end), spec_sat_sub(row_count as int, vr))
            }),
    {
        let max_start = if row_count > self.visible_rows { row_count - self.visible_rows } else { 0 };
        let start = if start < max_start { start } else { max_start };
        let end = if row_count - start > self.visible_rows { start + self.visible_rows } else { row_count };
        self.scroll_offset = row_count - end;
        self.clamp(row_count);
    }

    /// Scrolls `up` rows towards the first row, or down when `up` is negative, stopping
    /// at the bottom and at the first row.
    pub fn scroll_rows(&mut self, up: i64, row_count: usize)
        ensures
            final(self).spec_visible_rows() == old(self).spec_visible_rows(),
            final(self).wf() == old(self).wf(),
            final(self).spec_offset() == spec_min(
                if up >= 0 {
                    spec_min(old(self).spec_offset() + up, usize::MAX as int)
                } else {
                    spec_sat_sub(old(self).spec_offset() as int, -up)
                },
                old(self).spec_max_offset(row_count as int),
            ),
    {
        if up >= 0 {
            let steps: u64 = up as u64;
            if steps as u128 >= (usize::MAX - self.scroll_offset) as u128 {
                self.scroll_offset = usize::MAX;
            } else {
                self.scroll_offset = self.scroll_offset + steps as usize;
            }
        } else {
            let steps: u64 = if up == i64::MIN { (i64::MAX as u64) + 1 } else { (-up) as u64 };
            if steps as u128 >= self.scroll_offset as u128 {
                self.scroll_offset = 0;
            } else {
                self.scroll_offset = self.scroll_offset - steps as usize;
            }
        }
        self.clamp(row_count);
    }

    /// Scrolls as little as needed to show `row`; says whether the rows on screen changed.
    pub fn scroll_to_include(&mut self, row: usize, row_count: usize) -> (changed: bool)
        requires
            old(self).wf(),
        ensures
            final(self).wf(),
            final(self).spec_visible_rows() == old(self).spec_visible_rows(),
            row < row_count ==> final(self).spec_range(row_count as int).0 <= row
                < final(self).spec_range(row_count as int).1,
            changed == (final(self).spec_range(row_count as int) != ({
                let clamped = spec_min(
                    old(self).spec_offset() as int,
                    old(self).spec_max_offset(row_count as int),
                );
                let end = spec_sat_sub(row_count as int, clamped);
                (spec_sat_sub(end, old(self).spec_visible_rows() as int), end)
            })),
            final(self).spec_offset() == ({
                let vr = old(self).spec_visible_rows() as int;
                let clamped = spec_min(old(self).spec_offset() as int, old(self).spec_max_offset(row_count as int));
                let end = spec_sat_sub(row_count as int, clamped);
                let start = spec_sat_sub(end, vr);
                let wanted = if row < start {
                    spec_sat_sub(row_count as int, spec_min(row + vr, row_count as int))
                } else if row >= end {
                    spec_sat_sub(row_count as int, row + 1)
                } else {
                    clamped
                };
                spec_min(wanted, spec_sat_sub(row_count as int, vr))
            }),
    {
        self.clamp(row_count);
        let previous = self.visible_range(row_count);
        let (start, end) = previous;
        if row < start {
            let desired_end = if row_count - row > self.visible_rows { row + self.visible_rows } else { row_count };
            self.scroll_offset = row_count - desired_end;
        } else if row >= end {
            self.scroll_offset = if row < row_count { row_count - row - 1 } else { 0 };
        }
        self.clamp(row_count);
        let now = self.visible_range(row_count);
        now.0 != previous.0 || now.1 != previous.1
    }
}

} // verus!
