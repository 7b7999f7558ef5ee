//! The display width of characters, as the unicode-width crate measures it.
use vstd::prelude::*;

verus! {

/// What `unicode_width::UnicodeWidthChar::width` returns for a character: its width in
/// columns under UAX #11 (ambiguous characters narrow), or `None` for a control character.
pub uninterp spec fn unicode_char_width(c: char) -> Option<usize>;

/// Calls `unicode_width::UnicodeWidthChar::width`. The result is the named value; beyond
/// that, the crate's source (lookup.rs) gives printable ASCII width 1 and the C0 and C1
/// control characters no width. What the lookup tables give other characters is not stated.
#[verifier::external_body]
pub(crate) fn char_width(c: char) -> (w: Option<usize>)
    ensures
        w == unicode_char_width(c),
        0x20 <= (c as u32) < 0x7f ==> w == Some(1usize),
        ((c as u32) < 0x20 || (0x7f <= (c as u32) && (c as u32) < 0xa0)) ==> w is None,
{
    unicode_width::UnicodeWidthChar::width(c)
}

/// The number of cells a printed character takes: its width kept between 1 and 2,
/// controls counted as 1. Below U+00A0 every character (printable ASCII, C0, DEL, C1)
/// takes one cell.
pub open spec fn spec_cell_width(c: char) -> int {
    if (c as u32) < 0xa0 {
        1
    } else {
        match unicode_char_width(c) {
            Some(w) => if w < 1 { 1 } else if w > 2 { 2 } else { w as int },
            None => 1,
        }
    }
}

/// The number of cells a printed character takes.
pub fn cell_width(c: char) -> (w: usize)
    ensures
        w == spec_cell_width(c),
        1 <= w <= 2,
        (c as u32) < 0xa0 ==> w == 1,
{
    match char_width(c) {
        Some(w) => if w < 1 { 1 } else if w > 2 { 2 } else { w },
        None => 1,
    }
}

} // verus!
