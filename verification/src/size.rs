use vstd::prelude::*;

verus! {

/// Terminal dimensions measured in character cells.
///
/// Keeping this separate from pixel-based window sizes prevents accidental
/// width/height and pixel/cell mix-ups in resize code.
#[derive(Clone, Copy, Debug, PartialEq, Eq, Structural)]
pub struct TerminalSize {
    pub cols: usize,
    pub rows: usize,
}

impl TerminalSize {
    /// A size is valid when neither dimension is zero.
    pub open spec fn is_valid(self) -> bool {
        self.cols >= 1 && self.rows >= 1
    }

    /// The size with a zero dimension raised to one.
    pub open spec fn spec_at_least_one(self) -> TerminalSize {
        TerminalSize { cols: if self.cols == 0 { 1 } else { self.cols }, rows: if self.rows == 0 { 1 } else { self.rows } }
    }

    /// Builds a size, raising a zero dimension to one.
    pub fn new(cols: usize, rows: usize) -> (size: Self)
        ensures
            size.cols == if cols == 0 { 1 } else { cols },
            size.rows == if rows == 0 { 1 } else { rows },
            size.is_valid(),
    {
        Self { cols: if cols == 0 { 1 } else { cols }, rows: if rows == 0 { 1 } else { rows } }
    }
}

} // verus!
