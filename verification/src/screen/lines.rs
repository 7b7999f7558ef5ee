use vstd::prelude::*;
use std::collections::VecDeque;
use std::sync::Arc;
use crate::screen::cell::{ScreenCell, ScreenLine};
use crate::screen::buffer::{copy_line, copy_lines, spec_lines_view};

verus! {

/// Rows held by one block; every block but the last holds exactly this many.
pub const ROWS_PER_BLOCK: usize = 64;

/// A block of rows. Once later rows follow it, its rows are frozen behind an `Arc`
/// so that copies of the whole store share it; editing a frozen block copies it first.
#[derive(Debug)]
struct LineBlock {
    editing: Vec<ScreenLine>,
    frozen: Option<Arc<Vec<ScreenLine>>>,
}

/// A second handle on a frozen block's rows.
///
/// Calls `Arc::clone`, which points to the same allocation; the contract states that the
/// new handle holds the same rows.
#[verifier::external_body]
fn share_rows(rows: &Arc<Vec<ScreenLine>>) -> (shared: Arc<Vec<ScreenLine>>)
    ensures
        *shared == **rows,
{
    Arc::clone(rows)
}

/// The block at `index`, for editing in place.
///
/// Takes `&mut blocks[index]` through `VecDeque`'s `IndexMut`, which gives the element at
/// that position (an index past the end panics, so it is required to be in range); what
/// is written through it is what the deque holds there afterwards.
#[verifier::external_body]
fn block_mut(blocks: &mut VecDeque<LineBlock>, index: usize) -> (block: &mut LineBlock)
    requires
        index < old(blocks)@.len(),
    ensures
        *block == old(blocks)@[index as int],
        final(blocks)@ == old(blocks)@.update(index as int, *final(block)),
{
    &mut blocks[index]
}

impl LineBlock {
    /// The rows of the block, wherever they are held.
    spec fn rows(self) -> Seq<ScreenLine> {
        match self.frozen {
            Some(rows) => (*rows)@,
            None => self.editing@,
        }
    }

    /// A frozen block keeps no rows of its own.
    spec fn wf(self) -> bool {
        self.frozen is Some ==> self.editing@.len() == 0
    }

    fn empty() -> (block: LineBlock)
        ensures
            block.wf(),
            block.rows().len() == 0,
    {
        LineBlock { editing: Vec::new(), frozen: None }
    }

    fn lines(&self) -> (lines: &Vec<ScreenLine>)
        ensures
            lines@ == self.rows(),
    {
        match &self.frozen {
            Some(rows) => &**rows,
            None => &self.editing,
        }
    }

    /// Moves the rows behind an `Arc`.
    fn freeze(&mut self)
        requires
            old(self).wf(),
        ensures
            final(self).wf(),
            final(self).frozen is Some,
            final(self).rows() == old(self).rows(),
    {
        if self.frozen.is_none() {
            let mut rows: Vec<ScreenLine> = Vec::new();
            std::mem::swap(&mut rows, &mut self.editing);
            self.frozen = Some(Arc::new(rows));
        }
    }

    /// Makes the rows editable again, copying them out of a frozen block.
    fn thaw(&mut self)
        requires
            old(self).wf(),
        ensures
            final(self).wf(),
            final(self).frozen is None,
            spec_lines_view(final(self).rows()) == spec_lines_view(old(self).rows()),
    {
        match &self.frozen {
            Some(rows) => {
                let copy = copy_lines(&**rows);
                self.editing = copy;
                self.frozen = None;
            },
            None => {},
        }
    }

    fn lines_mut(&mut self) -> (lines: &mut Vec<ScreenLine>)
        requires
            old(self).wf(),
        ensures
            spec_lines_view(lines@) == spec_lines_view(old(self).rows()),
            final(self).frozen is None,
            final(self).editing == *final(lines),
    {
        self.thaw();
        &mut self.editing
    }
}


/// Every row of a terminal, history first, in blocks of `ROWS_PER_BLOCK` rows.
///
/// Frozen blocks are shared between copies, which keeps copies cheap even with a full
/// scrollback. Dropping history releases whole blocks; fewer than `ROWS_PER_BLOCK`
/// expired rows stay at the front of the first block.
#[derive(Debug)]
pub struct ScreenLines {
    blocks: VecDeque<LineBlock>,
    head: usize,
    len: usize,
}

/// The row stored at `slot`, counting from the first row of the first block.
spec fn slot_row(blocks: Seq<LineBlock>, slot: int) -> Seq<ScreenCell> {
    blocks[slot / (ROWS_PER_BLOCK as int)].rows()[slot % (ROWS_PER_BLOCK as int)]@
}

impl View for ScreenLines {
    type V = Seq<Seq<ScreenCell>>;

    /// The rows in order, each as its cells.
    closed spec fn view(&self) -> Seq<Seq<ScreenCell>> {
        Seq::new(self.len as nat, |row: int| slot_row(self.blocks@, self.head + row))
    }
}

impl ScreenLines {
    /// Every block but the last is full, the last is not empty, the rows in use are the
    /// stored ones after the first `head`, and an empty store has no blocks.
    pub closed spec fn wf(&self) -> bool {
        let n = self.blocks@.len();
        &&& self.head < ROWS_PER_BLOCK
        &&& self.head + self.len <= usize::MAX
        &&& forall|b: int| 0 <= b < n ==> (#[trigger] self.blocks@[b]).wf()
        &&& forall|b: int| 0 <= b < n - 1 ==> (#[trigger] self.blocks@[b]).rows().len() == ROWS_PER_BLOCK
        &&& (n == 0 <==> self.len == 0)
        &&& (n == 0 ==> self.head == 0)
        &&& (n > 0 ==> {
            &&& 0 < self.blocks@[n - 1].rows().len() <= ROWS_PER_BLOCK
            &&& self.head + self.len == ROWS_PER_BLOCK * (n - 1) + self.blocks@[n - 1].rows().len()
        })
    }

    /// A store without rows.
    pub fn new() -> (lines: ScreenLines)
        ensures
            lines.wf(),
            lines@ == Seq::<Seq<ScreenCell>>::empty(),
    {
        let lines = ScreenLines { blocks: VecDeque::new(), head: 0, len: 0 };
        assert(lines@ =~= Seq::<Seq<ScreenCell>>::empty());
        lines
    }

    pub fn len(&self) -> (len: usize)
        ensures
            len == self@.len(),
    {
        self.len
    }

    pub fn is_empty(&self) -> (empty: bool)
        ensures
            empty == (self@.len() == 0),
    {
        self.len == 0
    }

    /// The row at `row`, if there is one.
    pub fn get(&self, row: usize) -> (line: Option<&ScreenLine>)
        requires
            self.wf(),
        ensures
            row < self@.len() ==> line is Some && line->0@ == self@[row as int],
            row >= self@.len() ==> line is None,
    {
        if row >= self.len {
            return None;
        }
        proof { self.lemma_slot_in_range(row as int); }
        let slot = self.head + row;
        let lines = self.blocks[slot / ROWS_PER_BLOCK].lines();
        Some(&lines[slot % ROWS_PER_BLOCK])
    }

    /// The row at `row` for editing, if there is one; a frozen block is copied first.
    pub fn get_mut(&mut self, row: usize) -> (line: Option<&mut ScreenLine>)
        requires
            old(self).wf(),
        ensures
            row >= old(self)@.len() ==> line is None && *final(self) == *old(self),
            row < old(self)@.len() ==> {
                &&& line is Some
                &&& (*line.unwrap())@ == old(self)@[row as int]
                &&& final(self).wf()
                &&& final(self)@ == old(self)@.update(row as int, (*final(line.unwrap()))@)
                &&& final(self)@ == spec_edited(old(self)@, RowEdit::Replace(row as int, (*final(line.unwrap()))@))
            },
    {
        if row >= self.len {
            return None;
        }
        proof { self.lemma_slot_in_range(row as int); }
        let slot = self.head + row;
        let lines = block_mut(&mut self.blocks, slot / ROWS_PER_BLOCK).lines_mut();
        proof {
            lemma_same_rows(lines@, old(self).blocks@[(slot as int) / 64].rows());
            old(self).lemma_edit_row(row as int, lines@);
        }
        Some(&mut lines[slot % ROWS_PER_BLOCK])
    }

    /// Replaces the row at `row`.
    fn set(&mut self, row: usize, line: ScreenLine)
        requires
            old(self).wf(),
            row < old(self)@.len(),
        ensures
            final(self).wf(),
            final(self)@ == old(self)@.update(row as int, line@),
    {
        proof { self.lemma_slot_in_range(row as int); }
        let slot = self.head + row;
        let lines = block_mut(&mut self.blocks, slot / ROWS_PER_BLOCK).lines_mut();
        proof {
            lemma_same_rows(lines@, old(self).blocks@[(slot as int) / 64].rows());
            old(self).lemma_edit_row(row as int, lines@);
        }
        lines[slot % ROWS_PER_BLOCK] = line;
    }

    /// Appends a row after the last one.
    pub fn push_back(&mut self, line: ScreenLine)
        requires
            old(self).wf(),
            old(self)@.len() + ROWS_PER_BLOCK <= usize::MAX,
        ensures
            final(self).wf(),
            final(self)@ == old(self)@.push(line@),
            final(self)@ == spec_edited(old(self)@, RowEdit::PushBack(line@)),
    {
        let ghost line_view = line@;
        if (self.head + self.len) % ROWS_PER_BLOCK == 0 {
            let n = self.blocks.len();
            if n > 0 {
                block_mut(&mut self.blocks, n - 1).freeze();
            }
            self.blocks.push_back(LineBlock::empty());
        }
        let ghost grown = *self;
        proof {
            let m = grown.blocks@.len() as int;
            assert(m >= 1);
            assert(grown.head + grown.len == 64 * (m - 1) + grown.blocks@[m - 1].rows().len());
            assert(grown.blocks@[m - 1].rows().len() < 64);
            assert(forall|c: int| 0 <= c < m - 1 ==> (#[trigger] grown.blocks@[c]).rows().len() == 64);
            assert(forall|c: int| 0 <= c < m ==> (#[trigger] grown.blocks@[c]).wf());
            assert forall|r: int| 0 <= r < old(self).len implies
                slot_row(grown.blocks@, grown.head + r) == #[trigger] old(self)@[r] by {
                old(self).lemma_slot_in_range(r);
            }
        }
        let n = self.blocks.len();
        let last = block_mut(&mut self.blocks, n - 1).lines_mut();
        last.push(line);
        self.len = self.len + 1;
        proof {
            let m = self.blocks@.len() as int;
            assert(spec_lines_view(self.blocks@[m - 1].rows())
                == spec_lines_view(grown.blocks@[m - 1].rows()).push(line_view));
            let before = spec_lines_view(grown.blocks@[m - 1].rows());
            assert(before.len() == grown.blocks@[m - 1].rows().len());
            assert forall|r: int| 0 <= r < self.len implies
                #[trigger] self@[r] == old(self)@.push(line_view)[r] by {
                let slot = self.head + r;
                let b = slot / 64;
                let i = slot % 64;
                assert(slot == 64 * b + i);
                if b < m - 1 {
                    assert(self.blocks@[b] == grown.blocks@[b]);
                    assert(slot_row(grown.blocks@, grown.head + r) == old(self)@[r]);
                } else {
                    if b > m - 1 {
                        assert(64 * b >= 64 * m) by (nonlinear_arith) requires b >= m;
                    }
                    assert(b == m - 1);
                    assert(spec_lines_view(self.blocks@[b].rows())[i] == self.blocks@[b].rows()[i]@);
                    if r < old(self).len {
                        assert(before[i] == grown.blocks@[b].rows()[i]@);
                        assert(slot_row(grown.blocks@, grown.head + r) == old(self)@[r]);
                    }
                }
            }
            assert(self@ =~= old(self)@.push(line_view));
        }
    }

    /// Drops the first `count` rows, releasing every block that no longer holds a row.
    pub fn discard_prefix(&mut self, count: usize)
        requires
            old(self).wf(),
            count <= old(self)@.len(),
        ensures
            final(self).wf(),
            final(self)@ == old(self)@.skip(count as int),
            final(self)@ == spec_edited(old(self)@, RowEdit::DiscardPrefix(count as int)),
    {
        if count == self.len {
            *self = ScreenLines::new();
            assert(old(self)@.skip(count as int) =~= Seq::<Seq<ScreenCell>>::empty());
            return;
        }
        let head = self.head + count;
        let drop = head / ROWS_PER_BLOCK;
        let ghost n = old(self).blocks@.len() as int;
        proof { old(self).lemma_slot_in_range(count as int); }
        let mut i: usize = 0;
        while i < drop
            invariant
                i <= drop,
                drop < n,
                n == old(self).blocks@.len(),
                drop == (old(self).head + count) / 64,
                self.head == old(self).head,
                self.len == old(self).len,
                self.blocks@ == old(self).blocks@.skip(i as int),
            decreases drop - i,
        {
            self.blocks.pop_front();
            i = i + 1;
            assert(self.blocks@ =~= old(self).blocks@.skip(i as int));
        }
        self.head = head % ROWS_PER_BLOCK;
        self.len = self.len - count;
        proof {
            let d = drop as int;
            assert(self.blocks@ == old(self).blocks@.skip(d));
            assert forall|c: int| 0 <= c < self.blocks@.len() implies
                #[trigger] self.blocks@[c] == old(self).blocks@[c + d] by {}
            assert forall|r: int| 0 <= r < self.len implies
                #[trigger] self@[r] == old(self)@.skip(count as int)[r] by {
                let s1 = self.head + r;
                let s0 = old(self).head + count + r;
                assert(s0 == 64 * d + s1);
                assert(s0 / 64 == d + s1 / 64);
                assert(s0 % 64 == s1 % 64);
                old(self).lemma_slot_in_range(count + r);
            }
            assert(self@ =~= old(self)@.skip(count as int));
        }
    }

    /// A copy of the row at `row`.
    fn copy_row(&self, row: usize) -> (line: ScreenLine)
        requires
            self.wf(),
            row < self@.len(),
        ensures
            line@ == self@[row as int],
    {
        match self.get(row) {
            Some(found) => copy_line(found),
            None => Vec::new(),
        }
    }

    /// Drops the last row, releasing the last block once it is empty.
    fn drop_last_row(&mut self)
        requires
            old(self).wf(),
            old(self)@.len() > 1,
        ensures
            final(self).wf(),
            final(self)@ == old(self)@.drop_last(),
    {
        let n = self.blocks.len();
        let tail = block_mut(&mut self.blocks, n - 1).lines_mut();
        let ghost before = tail@;
        proof { lemma_same_rows(before, old(self).blocks@[n - 1].rows()); }
        tail.pop();
        let now_empty = tail.len() == 0;
        if now_empty {
            self.blocks.pop_back();
        }
        self.len = self.len - 1;
        proof {
            let m = old(self).blocks@.len() as int;
            assert forall|r: int| 0 <= r < self.len implies
                #[trigger] self@[r] == old(self)@.drop_last()[r] by {
                old(self).lemma_slot_in_range(r);
                let slot = self.head + r;
                let b = slot / 64;
                if b == m - 1 {
                    assert(before.subrange(0, before.len() - 1)[slot % 64] == before[slot % 64]);
                }
            }
            assert(self@ =~= old(self)@.drop_last());
        }
    }

    /// Takes out the row at `row`; the rows after it move up by one.
    pub fn remove(&mut self, row: usize) -> (removed: ScreenLine)
        requires
            old(self).wf(),
            row < old(self)@.len(),
        ensures
            final(self).wf(),
            removed@ == old(self)@[row as int],
            final(self)@ == old(self)@.remove(row as int),
            final(self)@ == spec_edited(old(self)@, RowEdit::Remove(row as int)),
    {
        let removed = self.copy_row(row);
        if row == 0 {
            self.discard_prefix(1);
            assert(old(self)@.skip(1) =~= old(self)@.remove(0));
            return removed;
        }
        let last = self.len - 1;
        let mut index = row;
        while index < last
            invariant
                self.wf(),
                self@.len() == old(self)@.len(),
                last == old(self)@.len() - 1,
                row <= index <= last,
                forall|k: int| 0 <= k < row ==> #[trigger] self@[k] == old(self)@[k],
                forall|k: int| row <= k < index ==> #[trigger] self@[k] == old(self)@[k + 1],
                forall|k: int| index <= k < self@.len() ==> #[trigger] self@[k] == old(self)@[k],
            decreases last - index,
        {
            let next = self.copy_row(index + 1);
            self.set(index, next);
            index = index + 1;
        }
        self.drop_last_row();
        assert(self@ =~= old(self)@.remove(row as int));
        removed
    }

    /// Puts `line` at `row`; the rows from there on move down by one.
    pub fn insert(&mut self, row: usize, line: ScreenLine)
        requires
            old(self).wf(),
            row <= old(self)@.len(),
            old(self)@.len() + ROWS_PER_BLOCK <= usize::MAX,
        ensures
            final(self).wf(),
            final(self)@ == old(self)@.insert(row as int, line@),
            final(self)@ == spec_edited(old(self)@, RowEdit::Insert(row as int, line@)),
    {
        let old_len = self.len;
        self.push_back(Vec::new());
        let mut index = old_len;
        while index > row
            invariant
                self.wf(),
                self@.len() == old(self)@.len() + 1,
                old_len == old(self)@.len(),
                row <= index <= old_len,
                forall|k: int| 0 <= k < index ==> #[trigger] self@[k] == old(self)@[k],
                forall|k: int| index < k < self@.len() ==> #[trigger] self@[k] == old(self)@[k - 1],
            decreases index - row,
        {
            let prev = self.copy_row(index - 1);
            self.set(index, prev);
            index = index - 1;
        }
        self.set(row, line);
        assert(self@ =~= old(self)@.insert(row as int, line@));
    }

    /// The rows in order.
    pub fn iter(&self) -> (rows: Vec<&ScreenLine>)
        requires
            self.wf(),
        ensures
            rows@.len() == self@.len(),
            forall|i: int| 0 <= i < rows@.len() ==> (#[trigger] rows@[i])@ == self@[i],
    {
        let mut rows: Vec<&ScreenLine> = Vec::new();
        let mut row: usize = 0;
        while row < self.len
            invariant
                self.wf(),
                row <= self@.len(),
                rows@.len() == row,
                forall|i: int| 0 <= i < row ==> (#[trigger] rows@[i])@ == self@[i],
            decreases self@.len() - row,
        {
            match self.get(row) {
                Some(line) => rows.push(line),
                None => {},
            }
            row = row + 1;
        }
        rows
    }

    /// A store holding `lines` in order.
    pub fn from_lines(lines: Vec<ScreenLine>) -> (stored: ScreenLines)
        requires
            lines@.len() + ROWS_PER_BLOCK <= usize::MAX,
        ensures
            stored.wf(),
            stored@ == spec_lines_view(lines@),
    {
        let mut stored = ScreenLines::new();
        let mut i: usize = 0;
        while i < lines.len()
            invariant
                stored.wf(),
                i <= lines@.len(),
                lines@.len() + ROWS_PER_BLOCK <= usize::MAX,
                stored@ == spec_lines_view(lines@.subrange(0, i as int)),
            decreases lines@.len() - i,
        {
            stored.push_back(copy_line(&lines[i]));
            i = i + 1;
            assert(spec_lines_view(lines@.subrange(0, i as int))
                =~= spec_lines_view(lines@.subrange(0, i - 1 as int)).push(lines@[i - 1]@));
        }
        assert(lines@.subrange(0, lines@.len() as int) =~= lines@);
        stored
    }

    /// How many rows the blocks hold, the expired ones at the front included.
    pub closed spec fn held_rows(&self) -> nat {
        (self.head + self.len) as nat
    }

    /// Replacing the row at one slot of a block changes that row of the view only.
    proof fn lemma_edit_slot(self, edited: ScreenLines, row: int, line: Seq<ScreenCell>)
        requires
            self.wf(),
            0 <= row < self.len,
            edited.head == self.head,
            edited.len == self.len,
            edited.blocks@.len() == self.blocks@.len(),
            ({
                let slot = self.head + row;
                let b = slot / (ROWS_PER_BLOCK as int);
                &&& edited.blocks@[b].wf()
                &&& spec_lines_view(edited.blocks@[b].rows())
                    == spec_lines_view(self.blocks@[b].rows()).update(slot % (ROWS_PER_BLOCK as int), line)
                &&& forall|c: int| 0 <= c < self.blocks@.len() && c != b
                    ==> edited.blocks@[c] == #[trigger] self.blocks@[c]
            }),
        ensures
            edited.wf(),
            edited@ == self@.update(row, line),
    {
        let slot = self.head + row;
        let b = slot / 64;
        self.lemma_slot_in_range(row);
        assert forall|c: int| 0 <= c < edited.blocks@.len() implies (#[trigger] edited.blocks@[c]).rows().len()
            == self.blocks@[c].rows().len() by {
            if c == b {
                assert(spec_lines_view(edited.blocks@[b].rows()).len() == edited.blocks@[b].rows().len());
            }
        }
        assert forall|r: int| 0 <= r < self.len implies #[trigger] edited@[r] == self@.update(row, line)[r] by {
            self.lemma_slot_in_range(r);
            let s2 = self.head + r;
            if s2 / 64 == b {
                assert(spec_lines_view(edited.blocks@[b].rows())[s2 % 64] == edited.blocks@[b].rows()[s2 % 64]@);
                assert(spec_lines_view(self.blocks@[b].rows())[s2 % 64] == self.blocks@[b].rows()[s2 % 64]@);
                if r != row {
                    assert(s2 % 64 != slot % 64);
                }
            }
        }
        assert(edited@ =~= self@.update(row, line));
    }

    /// Any store that differs from this one only in the block of `row`, where a copy of that
    /// block's rows had the row replaced, views as this store with the row replaced.
    proof fn lemma_edit_row(self, row: int, rows: Seq<ScreenLine>)
        requires
            self.wf(),
            0 <= row < self.len,
            spec_lines_view(rows)
                == spec_lines_view(self.blocks@[(self.head + row) / (ROWS_PER_BLOCK as int)].rows()),
        ensures
            forall|edited: ScreenLines, line: ScreenLine|
                #![trigger edited@, line@]
                {
                    let b = (self.head + row) / (ROWS_PER_BLOCK as int);
                    &&& edited.head == self.head
                    &&& edited.len == self.len
                    &&& edited.blocks@ == self.blocks@.update(b, edited.blocks@[b])
                    &&& edited.blocks@[b].frozen is None
                    &&& edited.blocks@[b].editing@
                        == rows.update((self.head + row) % (ROWS_PER_BLOCK as int), line)
                } ==> edited.wf() && edited@ == self@.update(row, line@),
    {
        let slot = self.head + row;
        let b = slot / 64;
        self.lemma_slot_in_range(row);
        lemma_same_rows(rows, self.blocks@[b].rows());
        assert forall|edited: ScreenLines, line: ScreenLine|
            #![trigger edited@, line@]
            {
                &&& edited.head == self.head
                &&& edited.len == self.len
                &&& edited.blocks@ == self.blocks@.update(b, edited.blocks@[b])
                &&& edited.blocks@[b].frozen is None
                &&& edited.blocks@[b].editing@ == rows.update(slot % 64, line)
            } implies edited.wf() && edited@ == self@.update(row, line@) by {
            lemma_lines_view_update(rows, slot % 64, line);
            self.lemma_edit_slot(edited, row, line@);
        }
    }

    /// Where a row in use is stored.
    proof fn lemma_slot_in_range(&self, row: int)
        requires
            self.wf(),
            0 <= row < self.len,
        ensures
            0 <= (self.head + row) / (ROWS_PER_BLOCK as int) < self.blocks@.len(),
            0 <= (self.head + row) % (ROWS_PER_BLOCK as int)
                < self.blocks@[(self.head + row) / (ROWS_PER_BLOCK as int)].rows().len(),
    {
        let n = self.blocks@.len() as int;
        let slot = self.head + row;
        let b = slot / 64;
        assert(slot == 64 * b + slot % 64);
        assert(slot < 64 * (n - 1) + self.blocks@[n - 1].rows().len());
        if b >= n {
            assert(64 * b >= 64 * n) by (nonlinear_arith) requires b >= n;
        }
    }
}


/// Dropping history releases whole blocks: the rows held beyond the ones in use are the
/// expired rows at the front of the first block, fewer than a block's worth.
pub proof fn lemma_expired_rows_fewer_than_a_block(lines: &ScreenLines)
    requires
        lines.wf(),
    ensures
        lines@.len() <= lines.held_rows() < lines@.len() + ROWS_PER_BLOCK,
{
}

impl Default for ScreenLines {
    fn default() -> (lines: ScreenLines)
        ensures
            lines.wf(),
            lines@ == Seq::<Seq<ScreenCell>>::empty(),
    {
        ScreenLines::new()
    }
}

impl LineBlock {
    /// A copy that shares frozen rows and copies editable ones.
    fn duplicate(&self) -> (copy: LineBlock)
        ensures
            self.wf() ==> copy.wf(),
            spec_lines_view(copy.rows()) == spec_lines_view(self.rows()),
    {
        let frozen = match &self.frozen {
            Some(rows) => Some(share_rows(rows)),
            None => None,
        };
        let editing = copy_lines(&self.editing);
        proof { lemma_same_rows(editing@, self.editing@); }
        LineBlock { editing, frozen }
    }
}

impl Clone for ScreenLines {
    /// A copy that shares the frozen blocks; later edits of either leave the other alone.
    fn clone(&self) -> (copy: ScreenLines)
        ensures
            self.wf() ==> copy.wf() && copy@ == self@,
    {
        let mut blocks: VecDeque<LineBlock> = VecDeque::new();
        let mut i: usize = 0;
        while i < self.blocks.len()
            invariant
                i <= self.blocks@.len(),
                blocks@.len() == i,
                forall|b: int| 0 <= b < i ==> self.blocks@[b].wf() ==> (#[trigger] blocks@[b]).wf(),
                forall|b: int| 0 <= b < i ==> spec_lines_view((#[trigger] blocks@[b]).rows())
                    == spec_lines_view(self.blocks@[b].rows()),
            decreases self.blocks@.len() - i,
        {
            blocks.push_back(self.blocks[i].duplicate());
            i = i + 1;
        }
        let copy = ScreenLines { blocks, head: self.head, len: self.len };
        proof {
            if self.wf() {
                assert forall|b: int| 0 <= b < copy.blocks@.len() implies
                    (#[trigger] copy.blocks@[b]).rows().len() == self.blocks@[b].rows().len() by {
                    lemma_same_rows(copy.blocks@[b].rows(), self.blocks@[b].rows());
                }
                assert forall|r: int| 0 <= r < self.len implies #[trigger] copy@[r] == self@[r] by {
                    self.lemma_slot_in_range(r);
                    let b = (self.head + r) / 64;
                    lemma_same_rows(copy.blocks@[b].rows(), self.blocks@[b].rows());
                }
                assert(copy@ =~= self@);
            }
        }
        copy
    }
}

/// Two row sequences with the same cells row by row.
proof fn lemma_same_rows(a: Seq<ScreenLine>, b: Seq<ScreenLine>)
    requires
        spec_lines_view(a) == spec_lines_view(b),
    ensures
        a.len() == b.len(),
        forall|j: int| 0 <= j < a.len() ==> (#[trigger] a[j])@ == b[j]@,
{
    assert(spec_lines_view(a).len() == a.len());
    assert(spec_lines_view(b).len() == b.len());
    assert forall|j: int| 0 <= j < a.len() implies (#[trigger] a[j])@ == b[j]@ by {
        assert(spec_lines_view(a)[j] == spec_lines_view(b)[j]);
    }
}

/// Replacing one row replaces its cells in the view.
proof fn lemma_lines_view_update(lines: Seq<ScreenLine>, i: int, line: ScreenLine)
    requires
        0 <= i < lines.len(),
    ensures
        spec_lines_view(lines.update(i, line)) == spec_lines_view(lines).update(i, line@),
{
    assert(spec_lines_view(lines.update(i, line)) =~= spec_lines_view(lines).update(i, line@));
}

/// One edit of the rows, as an operation of the store makes it.
pub enum RowEdit {
    /// `push_back` of a row.
    PushBack(Seq<ScreenCell>),
    /// `discard_prefix` of this many rows.
    DiscardPrefix(int),
    /// `remove` of the row at this position.
    Remove(int),
    /// `insert` of a row at this position.
    Insert(int, Seq<ScreenCell>),
    /// A write through `get_mut` that leaves the row at this position as given.
    Replace(int, Seq<ScreenCell>),
}

/// Whether `edit` can be made on `rows`: the positions it names are there.
pub open spec fn edit_fits(rows: Seq<Seq<ScreenCell>>, edit: RowEdit) -> bool {
    match edit {
        RowEdit::PushBack(_) => true,
        RowEdit::DiscardPrefix(count) => 0 <= count <= rows.len(),
        RowEdit::Remove(row) => 0 <= row < rows.len(),
        RowEdit::Insert(row, _) => 0 <= row <= rows.len(),
        RowEdit::Replace(row, _) => 0 <= row < rows.len(),
    }
}

/// What a vector of the rows holds after the same edit: a push, a drain of the first
/// rows, a removal, an insertion, or one row replaced.
pub open spec fn spec_edited(rows: Seq<Seq<ScreenCell>>, edit: RowEdit) -> Seq<Seq<ScreenCell>> {
    match edit {
        RowEdit::PushBack(line) => rows.push(line),
        RowEdit::DiscardPrefix(count) => rows.skip(count),
        RowEdit::Remove(row) => rows.remove(row),
        RowEdit::Insert(row, line) => rows.insert(row, line),
        RowEdit::Replace(row, line) => rows.update(row, line),
    }
}

/// What a vector of the rows holds after each of `edits` in turn.
pub open spec fn spec_edits(rows: Seq<Seq<ScreenCell>>, edits: Seq<RowEdit>) -> Seq<Seq<ScreenCell>>
    decreases edits.len(),
{
    if edits.len() == 0 {
        rows
    } else {
        spec_edited(spec_edits(rows, edits.drop_last()), edits.last())
    }
}

/// The store keeps the rows a vector would: when each of a run of edits takes the rows
/// from one state to the next as the operation that makes it states (`push_back`,
/// `discard_prefix`, `remove`, `insert`, `get_mut`), the last state is what a vector
/// holds after the same edits, and every state before it too.
pub proof fn lemma_store_follows_vec(states: Seq<Seq<Seq<ScreenCell>>>, edits: Seq<RowEdit>)
    requires
        states.len() == edits.len() + 1,
        forall|i: int| 0 <= i < edits.len() ==> edit_fits(states[i], #[trigger] edits[i]),
        forall|i: int| 0 <= i < edits.len() ==> states[i + 1] == spec_edited(states[i], #[trigger] edits[i]),
    ensures
        states.last() == spec_edits(states[0], edits),
        forall|k: int| 0 <= k < states.len() ==> #[trigger] states[k] == spec_edits(states[0], edits.take(k)),
    decreases edits.len(),
{
    if edits.len() == 0 {
        assert(edits.take(0) =~= edits);
    } else {
        let n = edits.len() - 1;
        let shorter = states.drop_last();
        let first = edits.drop_last();
        assert forall|i: int| 0 <= i < first.len() implies edit_fits(shorter[i], #[trigger] first[i]) by {
            assert(edits[i] == first[i]);
        }
        assert forall|i: int| 0 <= i < first.len() implies shorter[i + 1] == spec_edited(shorter[i], #[trigger] first[i]) by {
            assert(edits[i] == first[i]);
        }
        lemma_store_follows_vec(shorter, first);
        assert forall|k: int| 0 <= k < states.len() implies #[trigger] states[k] == spec_edits(states[0], edits.take(k)) by {
            if k < states.len() - 1 {
                assert(shorter[k] == states[k]);
                assert(edits.take(k) =~= first.take(k));
            } else {
                assert(edits.take(k) =~= edits);
                assert(first.take(n) =~= first);
                assert(shorter[n] == spec_edits(states[0], first.take(n)));
                assert(edits.take(k).drop_last() =~= first);
            }
        }
    }
}

/// A copy keeps its rows whatever is done to the store afterwards: when `copy` was taken
/// of the store while it held `states[0]` (as `clone` states) and a run of edits then took
/// the store through `states`, each as the operation that made it states, the copy still
/// holds `states[0]` while the store holds what a vector holds after the same edits.
pub proof fn lemma_copy_keeps_rows(copy: ScreenLines, states: Seq<Seq<Seq<ScreenCell>>>, edits: Seq<RowEdit>)
    requires
        states.len() == edits.len() + 1,
        copy@ == states[0],
        forall|i: int| 0 <= i < edits.len() ==> edit_fits(states[i], #[trigger] edits[i]),
        forall|i: int| 0 <= i < edits.len() ==> states[i + 1] == spec_edited(states[i], #[trigger] edits[i]),
    ensures
        copy@ == spec_edits(states[0], Seq::empty()),
        states.last() == spec_edits(copy@, edits),
{
    lemma_store_follows_vec(states, edits);
}

} // verus!
