//! Edits of one row of cells.
use vstd::prelude::*;
use crate::screen::cell::{ScreenCell, ScreenLine};
use crate::screen::buffer::spec_repeat;

verus! {

/// The row, extended with copies of `cell` until it has at least `len` cells.
pub open spec fn spec_pad(line: Seq<ScreenCell>, len: int, cell: ScreenCell) -> Seq<ScreenCell> {
    if line.len() >= len { line } else { line + spec_repeat(cell, len - line.len()) }
}

/// The row with cells `start..end` replaced by copies of `cell`.
pub open spec fn spec_fill(line: Seq<ScreenCell>, start: int, end: int, cell: ScreenCell) -> Seq<ScreenCell> {
    line.subrange(0, start) + spec_repeat(cell, end - start) + line.subrange(end, line.len() as int)
}

/// The row with `k` copies of `cell` inserted before column `col`.
pub open spec fn spec_insert(line: Seq<ScreenCell>, col: int, k: int, cell: ScreenCell) -> Seq<ScreenCell> {
    line.subrange(0, col) + spec_repeat(cell, k) + line.subrange(col, line.len() as int)
}

/// The row with cells `col..col + k` removed.
pub open spec fn spec_remove(line: Seq<ScreenCell>, col: int, k: int) -> Seq<ScreenCell> {
    line.subrange(0, col) + line.subrange(col + k, line.len() as int)
}

/// The first `len` cells of the row, or all of them if it is shorter.
pub open spec fn spec_truncate(line: Seq<ScreenCell>, len: int) -> Seq<ScreenCell> {
    if len < line.len() { line.subrange(0, len) } else { line }
}

/// Appends copies of `cell` until the row has at least `len` cells.
pub fn pad_line(line: &mut ScreenLine, len: usize, cell: ScreenCell)
    ensures
        final(line)@ == spec_pad(old(line)@, len as int, cell),
{
    let ghost start = line@;
    while line.len() < len
        invariant
            start == old(line)@,
            start.len() <= line@.len(),
            line@.len() <= if start.len() >= len { start.len() as int } else { len as int },
            line@ == start + spec_repeat(cell, line@.len() - start.len()),
        decreases len - line@.len(),
    {
        line.push(cell);
        assert(line@ =~= start + spec_repeat(cell, line@.len() - start.len()));
    }
    assert(line@ =~= spec_pad(start, len as int, cell));
}

/// Replaces cells `start..end` by copies of `cell`.
pub fn fill_range(line: &mut ScreenLine, start: usize, end: usize, cell: ScreenCell)
    requires
        start <= end <= old(line)@.len(),
    ensures
        final(line)@ == spec_fill(old(line)@, start as int, end as int, cell),
{
    let mut i = start;
    while i < end
        invariant
            start <= i <= end,
            end <= old(line)@.len(),
            line@ == spec_fill(old(line)@, start as int, i as int, cell),
        decreases end - i,
    {
        line.set(i, cell);
        i = i + 1;
        assert(line@ =~= spec_fill(old(line)@, start as int, i as int, cell));
    }
}

/// Inserts `k` copies of `cell` before column `col`.
pub fn insert_cells(line: &mut ScreenLine, col: usize, k: usize, cell: ScreenCell)
    requires
        col <= old(line)@.len(),
    ensures
        final(line)@ == spec_insert(old(line)@, col as int, k as int, cell),
{
    let mut i: usize = 0;
    assert(old(line)@ =~= spec_insert(old(line)@, col as int, 0, cell));
    while i < k
        invariant
            i <= k,
            col <= old(line)@.len(),
            line@ == spec_insert(old(line)@, col as int, i as int, cell),
        decreases k - i,
    {
        line.insert(col, cell);
        i = i + 1;
        assert(line@ =~= spec_insert(old(line)@, col as int, i as int, cell));
    }
}

/// Removes cells `col..col + k`.
pub fn remove_cells(line: &mut ScreenLine, col: usize, k: usize)
    requires
        col + k <= old(line)@.len(),
    ensures
        final(line)@ == spec_remove(old(line)@, col as int, k as int),
{
    let mut i: usize = 0;
    assert(old(line)@ =~= spec_remove(old(line)@, col as int, 0));
    while i < k
        invariant
            i <= k,
            col + k <= old(line)@.len(),
            line@ == spec_remove(old(line)@, col as int, i as int),
        decreases k - i,
    {
        line.remove(col);
        i = i + 1;
        assert(line@ =~= spec_remove(old(line)@, col as int, i as int));
    }
}

} // verus!
