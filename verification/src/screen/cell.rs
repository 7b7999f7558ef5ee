use vstd::prelude::*;

verus! {

/// An RGBA color as four 8-bit channels.
pub type Rgba = [u8; 4];

/// The drawing attributes that new cells take.
#[derive(Clone, Copy, Debug, PartialEq, Eq)]
pub struct CellStyle {
    pub faint: bool,
    pub fg_rgba: Option<Rgba>,
    pub bg_rgba: Option<Rgba>,
}

impl CellStyle {
    /// The style of a terminal that received no SGR sequence.
    pub open spec fn spec_plain() -> CellStyle {
        CellStyle { faint: false, fg_rgba: None, bg_rgba: None }
    }

    /// The style of erased cells: the current background, nothing else.
    pub open spec fn spec_erase(self) -> CellStyle {
        CellStyle { faint: false, fg_rgba: None, bg_rgba: self.bg_rgba }
    }

    pub fn plain() -> (style: CellStyle)
        ensures
            style == CellStyle::spec_plain(),
    {
        CellStyle { faint: false, fg_rgba: None, bg_rgba: None }
    }

    pub fn erase_style(&self) -> (style: CellStyle)
        ensures
            style == self.spec_erase(),
    {
        CellStyle { faint: false, fg_rgba: None, bg_rgba: self.bg_rgba }
    }
}

impl Default for CellStyle {
    fn default() -> (style: CellStyle)
        ensures
            style == CellStyle::spec_plain(),
    {
        CellStyle::plain()
    }
}

/// One character cell of the grid.
#[derive(Clone, Copy, Debug, PartialEq, Eq)]
pub struct ScreenCell {
    pub ch: char,
    pub style: CellStyle,
    pub is_wide_continuation: bool,
}

impl ScreenCell {
    pub open spec fn spec_new(ch: char, style: CellStyle) -> ScreenCell {
        ScreenCell { ch, style, is_wide_continuation: false }
    }

    pub open spec fn spec_blank(style: CellStyle) -> ScreenCell {
        ScreenCell { ch: ' ', style, is_wide_continuation: false }
    }

    pub open spec fn spec_wide_continuation(style: CellStyle) -> ScreenCell {
        ScreenCell { ch: ' ', style, is_wide_continuation: true }
    }

    /// A cell that shows `ch`.
    pub fn new(ch: char, style: CellStyle) -> (cell: ScreenCell)
        ensures
            cell == ScreenCell::spec_new(ch, style),
    {
        ScreenCell { ch, style, is_wide_continuation: false }
    }

    /// An empty cell with the given style.
    pub fn blank(style: CellStyle) -> (cell: ScreenCell)
        ensures
            cell == ScreenCell::spec_blank(style),
    {
        ScreenCell { ch: ' ', style, is_wide_continuation: false }
    }

    /// The right half of a two-column character.
    pub fn wide_continuation(style: CellStyle) -> (cell: ScreenCell)
        ensures
            cell == ScreenCell::spec_wide_continuation(style),
    {
        ScreenCell { ch: ' ', style, is_wide_continuation: true }
    }

    pub fn foreground_rgba(&self) -> (color: Option<Rgba>)
        ensures
            color == self.style.fg_rgba,
    {
        self.style.fg_rgba
    }

    pub fn background_rgba(&self) -> (color: Option<Rgba>)
        ensures
            color == self.style.bg_rgba,
    {
        self.style.bg_rgba
    }
}

impl Default for ScreenCell {
    fn default() -> (cell: ScreenCell)
        ensures
            cell == ScreenCell::spec_blank(CellStyle::spec_plain()),
    {
        ScreenCell::blank(CellStyle::plain())
    }
}

/// Whether two optional colors are the same.
pub fn same_rgba(a: Option<Rgba>, b: Option<Rgba>) -> (same: bool)
    ensures
        same == (a == b),
{
    match (a, b) {
        (Some(x), Some(y)) => {
            let same = x[0] == y[0] && x[1] == y[1] && x[2] == y[2] && x[3] == y[3];
            proof {
                if same {
                    assert(x =~= y);
                }
            }
            same
        },
        (None, None) => true,
        _ => false,
    }
}

impl CellStyle {
    pub fn same_as(&self, other: &CellStyle) -> (same: bool)
        ensures
            same == (*self == *other),
    {
        self.faint == other.faint && same_rgba(self.fg_rgba, other.fg_rgba) && same_rgba(
            self.bg_rgba,
            other.bg_rgba,
        )
    }
}

impl ScreenCell {
    pub fn same_as(&self, other: &ScreenCell) -> (same: bool)
        ensures
            same == (*self == *other),
    {
        self.ch == other.ch && self.is_wide_continuation == other.is_wide_continuation
            && self.style.same_as(&other.style)
    }
}

/// One row of cells.
pub type ScreenLine = Vec<ScreenCell>;

/// Whether two rows hold the same cells.
pub fn same_line(a: &ScreenLine, b: &ScreenLine) -> (same: bool)
    ensures
        same == (a@ == b@),
{
    if a.len() != b.len() {
        return false;
    }
    let mut i: usize = 0;
    while i < a.len()
        invariant
            a@.len() == b@.len(),
            i <= a@.len(),
            forall|j: int| 0 <= j < i ==> a@[j] == b@[j],
        decreases a@.len() - i,
    {
        if !a[i].same_as(&b[i]) {
            return false;
        }
        i = i + 1;
    }
    assert(a@ =~= b@);
    true
}

/// What a renderer needs to draw a terminal at one moment.
#[derive(Clone, Debug)]
pub struct ScreenSnapshot {
    pub lines: Vec<ScreenLine>,
    pub cursor_row: usize,
    pub cursor_col: usize,
    pub cursor_color: Option<Rgba>,
    pub cursor_visible: bool,
    /// How many rows have been dropped from the top of the scrollback so far.
    pub history_start: usize,
}

impl Default for ScreenSnapshot {
    fn default() -> (snapshot: ScreenSnapshot)
        ensures
            snapshot.lines@.len() == 0,
            snapshot.cursor_row == 0,
            snapshot.cursor_col == 0,
            snapshot.cursor_color is None,
            !snapshot.cursor_visible,
            snapshot.history_start == 0,
    {
        ScreenSnapshot {
            lines: Vec::new(),
            cursor_row: 0,
            cursor_col: 0,
            cursor_color: None,
            cursor_visible: false,
            history_start: 0,
        }
    }
}

} // verus!
