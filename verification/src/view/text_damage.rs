use vstd::prelude::*;
use std::collections::BTreeSet;
use std::ops::Range;
use vstd::std_specs::iter::IteratorSpec;
use crate::screen::cell::{same_line, same_rgba, ScreenCell, ScreenLine, ScreenSnapshot};

verus! {

broadcast use {vstd::std_specs::btree::group_btree_axioms, vstd::laws_cmp::group_laws_cmp};

/// Which text rows must be laid out again before the next frame.
#[derive(Debug, PartialEq, Eq)]
pub enum TextDamage {
    /// Nothing changed.
    Clean,
    /// These rows changed.
    Rows(BTreeSet<usize>),
    /// Everything must be redrawn.
    All,
}

/// The row of a snapshot, if it has one.
pub open spec fn spec_line_at(lines: Seq<ScreenLine>, row: int) -> Option<Seq<ScreenCell>> {
    if 0 <= row < lines.len() { Some(lines[row]@) } else { None }
}

/// Whether two snapshots differ in what a row shows.
pub open spec fn spec_row_differs(previous: ScreenSnapshot, next: ScreenSnapshot, row: int) -> bool {
    spec_line_at(previous.lines@, row) != spec_line_at(next.lines@, row)
}

/// Whether the cursor moved, changed color, or appeared or vanished.
pub open spec fn spec_cursor_changed(previous: ScreenSnapshot, next: ScreenSnapshot) -> bool {
    previous.cursor_row != next.cursor_row || previous.cursor_col != next.cursor_col
        || previous.cursor_color != next.cursor_color
        || previous.cursor_visible != next.cursor_visible
}

/// The visible rows that must be redrawn: those whose cells changed, and, when the cursor
/// changed, the rows where it was and where it is, as far as it is shown there.
pub open spec fn spec_damaged_rows(
    previous: ScreenSnapshot,
    next: ScreenSnapshot,
    start: usize,
    end: usize,
) -> Set<usize> {
    Set::new(
        |row: usize|
            start <= row < end && {
                ||| spec_row_differs(previous, next, row as int)
                ||| spec_cursor_changed(previous, next) && previous.cursor_visible
                    && row == previous.cursor_row
                ||| spec_cursor_changed(previous, next) && next.cursor_visible && row
                    == next.cursor_row
            },
    )
}

/// Damage does not depend on the direction of the change: a cursor that blinks off
/// damages the same rows as one that blinks on.
pub proof fn lemma_damage_is_symmetric(previous: ScreenSnapshot, next: ScreenSnapshot, start: usize, end: usize)
    ensures
        spec_damaged_rows(previous, next, start, end) == spec_damaged_rows(next, previous, start, end),
{
    assert(spec_damaged_rows(previous, next, start, end) =~= spec_damaged_rows(next, previous, start, end));
}

/// Where the rows are the same and the cursor is hidden before and after, nothing is
/// damaged, however far the cursor moved.
pub proof fn lemma_hidden_cursor_damages_nothing(previous: ScreenSnapshot, next: ScreenSnapshot, start: usize, end: usize)
    requires
        previous.lines@.len() == next.lines@.len(),
        forall|r: int| 0 <= r < previous.lines@.len() ==> (#[trigger] previous.lines@[r])@ == next.lines@[r]@,
        !previous.cursor_visible,
        !next.cursor_visible,
    ensures
        spec_damaged_rows(previous, next, start, end) == Set::<usize>::empty(),
{
    assert(spec_damaged_rows(previous, next, start, end) =~= Set::<usize>::empty());
}

impl TextDamage {
    /// The rows that are marked, short of everything.
    pub open spec fn spec_rows(&self) -> Set<usize> {
        match self {
            TextDamage::Clean => Set::empty(),
            TextDamage::Rows(rows) => rows@,
            TextDamage::All => Set::empty(),
        }
    }

    /// Whether `row` must be redrawn.
    pub open spec fn covers(&self, row: usize) -> bool {
        self is All || self.spec_rows().contains(row)
    }

    /// The damage from `previous` to `next` on the visible rows.
    pub fn between(previous: &ScreenSnapshot, next: &ScreenSnapshot, visible: Range<usize>) -> (damage:
        TextDamage)
        ensures
            !(damage is All),
            damage.spec_rows() == spec_damaged_rows(*previous, *next, visible.start, visible.end),
            damage is Clean <==> spec_damaged_rows(*previous, *next, visible.start, visible.end)
                == Set::<usize>::empty(),
    {
        let start = visible.start;
        let end = visible.end;
        let mut damage = TextDamage::Clean;
        let mut row = start;
        while row < end
            invariant
                start <= row <= end || (end < start && row == start),
                !(damage is All),
                damage is Rows ==> exists|r: usize| damage.spec_rows().contains(r),
                damage.spec_rows() == Set::new(
                    |r: usize| start <= r < row && spec_row_differs(*previous, *next, r as int),
                ),
            decreases end - row,
        {
            let before = if row < previous.lines.len() {
                Some(&previous.lines[row])
            } else {
                None
            };
            let after = if row < next.lines.len() {
                Some(&next.lines[row])
            } else {
                None
            };
            let differs = match (before, after) {
                (Some(a), Some(b)) => !same_line(a, b),
                (None, None) => false,
                _ => true,
            };
            if differs {
                damage.add_row(row);
                assert(damage.spec_rows().contains(row));
            }
            row = row + 1;
            proof {
                assert(damage.spec_rows() =~= Set::new(
                    |r: usize| start <= r < row && spec_row_differs(*previous, *next, r as int),
                ));
            }
        }
        let cursor_changed = previous.cursor_row != next.cursor_row || previous.cursor_col
            != next.cursor_col || !same_rgba(previous.cursor_color, next.cursor_color)
            || previous.cursor_visible != next.cursor_visible;
        if cursor_changed {
            if previous.cursor_visible && start <= previous.cursor_row && previous.cursor_row < end {
                damage.add_row(previous.cursor_row);
                assert(damage.spec_rows().contains(previous.cursor_row));
            }
            if next.cursor_visible && start <= next.cursor_row && next.cursor_row < end {
                damage.add_row(next.cursor_row);
                assert(damage.spec_rows().contains(next.cursor_row));
            }
        }
        proof {
            assert(damage.spec_rows() =~= spec_damaged_rows(*previous, *next, start, end));
            if damage is Rows {
                let r = choose|r: usize| damage.spec_rows().contains(r);
                assert(spec_damaged_rows(*previous, *next, start, end).contains(r));
            }
        }
        damage
    }

    /// Marks `row` for redrawing.
    pub fn add_row(&mut self, row: usize)
        ensures
            ((*final(self)) is All) == ((*old(self)) is All),
            final(self).spec_rows() == if (*old(self)) is All {
                Set::empty()
            } else {
                old(self).spec_rows().insert(row)
            },
            !((*old(self)) is All) ==> (*final(self)) is Rows,
    {
        match self {
            TextDamage::Clean => {
                let mut rows = BTreeSet::new();
                rows.insert(row);
                *self = TextDamage::Rows(rows);
            },
            TextDamage::Rows(rows) => {
                rows.insert(row);
            },
            TextDamage::All => {},
        }
    }

    /// Adds the damage of a later update: everything stays everything, rows add up, and
    /// the result is clean only when both were.
    pub fn merge(&mut self, next: TextDamage)
        ensures
            ((*final(self)) is All) == ((*old(self)) is All || next is All),
            ((*final(self)) is Clean) == ((*old(self)) is Clean && next is Clean),
            final(self).spec_rows() == if (*final(self)) is All {
                Set::empty()
            } else {
                old(self).spec_rows().union(next.spec_rows())
            },
    {
        match next {
            TextDamage::Clean => {
                assert(old(self).spec_rows().union(Set::empty()) =~= old(self).spec_rows());
            },
            TextDamage::All => self.mark_all(),
            TextDamage::Rows(next_rows) => {
                match self {
                    TextDamage::Clean => {
                        assert(Set::<usize>::empty().union(next_rows@) =~= next_rows@);
                        *self = TextDamage::Rows(next_rows);
                    },
                    TextDamage::Rows(rows) => {
                        let ghost start = rows@;
                        let ghost keys = vstd::std_specs::btree::spec_btree_keys_iter(
                            &next_rows,
                        ).remaining();
                        let ghost mut done: int = 0;
                        for row in it: next_rows.iter()
                            invariant
                                it.seq() == keys,
                                done == it.index(),
                                forall|r: usize| #[trigger] rows@.contains(r) <==> (start.contains(r)
                                    || exists|j: int| 0 <= j < done && *keys[j] == r),
                        {
                            rows.insert(*row);
                            proof {
                                done = done + 1;
                            }
                        }
                        proof {
                            assert(done == keys.len());
                            assert(keys.unref().to_set() == next_rows@);
                            assert forall|r: usize| #[trigger] rows@.contains(r) == start.union(
                                next_rows@,
                            ).contains(r) by {
                                if next_rows@.contains(r) {
                                    assert(keys.unref().to_set().contains(r));
                                    let j = keys.unref().index_of(r);
                                    assert(*keys[j] == r);
                                }
                                if exists|j: int| 0 <= j < done && *keys[j] == r {
                                    let j = choose|j: int| 0 <= j < done && *keys[j] == r;
                                    assert(keys.unref()[j] == r);
                                }
                            }
                            assert(rows@ =~= start.union(next_rows@));
                        }
                    },
                    TextDamage::All => {},
                }
            },
        }
    }

    /// Marks everything for redrawing.
    pub fn mark_all(&mut self)
        ensures
            (*final(self)) is All,
    {
        *self = TextDamage::All;
    }
}

impl Default for TextDamage {
    fn default() -> (damage: TextDamage)
        ensures
            damage is Clean,
    {
        TextDamage::Clean
    }
}

/// The rows to lay out again, taken from `keys` in order: those inside `start..end`, each
/// with its line in the text buffer, counted from `start` and `offset` lines further down.
pub open spec fn spec_rows_to_rebuild(keys: Seq<usize>, start: int, end: int, offset: int) -> Seq<(usize, usize)>
    decreases keys.len(),
{
    if keys.len() == 0 {
        Seq::empty()
    } else {
        let rest = spec_rows_to_rebuild(keys.drop_last(), start, end, offset);
        let row = keys.last();
        if start <= row < end {
            rest.push((row, (offset + row - start) as usize))
        } else {
            rest
        }
    }
}

/// The lines of the text buffer to lay out again for the damaged `rows`: each damaged row
/// inside the visible range `start..end`, in the set's order, with its line in the buffer,
/// counted from the first visible row and one further down when the tab bar shows.
pub fn rows_to_rebuild(rows: &BTreeSet<usize>, start: usize, end: usize, has_tab_bar: bool) -> (rebuild: Vec<(usize, usize)>)
    requires
        start <= end,
    ensures
        rebuild@ == spec_rows_to_rebuild(
            vstd::std_specs::btree::spec_btree_keys_iter(rows).remaining().unref(),
            start as int,
            end as int,
            if has_tab_bar { 1int } else { 0int },
        ),
        forall|i: int| 0 <= i < rebuild@.len() ==> {
            &&& rows@.contains(#[trigger] rebuild@[i].0)
            &&& start <= rebuild@[i].0 < end
            &&& rebuild@[i].1 == (if has_tab_bar { 1int } else { 0int }) + rebuild@[i].0 - start
        },
        forall|r: usize| rows@.contains(r) && start <= r < end ==> exists|i: int| 0 <= i < rebuild@.len() && #[trigger] rebuild@[i].0 == r,
{
    let offset: usize = if has_tab_bar { 1 } else { 0 };
    let ghost keys = vstd::std_specs::btree::spec_btree_keys_iter(rows).remaining();
    let ghost plain = keys.unref();
    let mut rebuild: Vec<(usize, usize)> = Vec::new();
    let ghost mut done: int = 0;
    for row in it: rows.iter()
        invariant
            it.seq() == keys,
            plain == keys.unref(),
            done == it.index(),
            offset == if has_tab_bar { 1usize } else { 0usize },
            start <= end,
            rebuild@ == spec_rows_to_rebuild(plain.take(done), start as int, end as int, offset as int),
            forall|i: int| 0 <= i < rebuild@.len() ==> {
                &&& rows@.contains(#[trigger] rebuild@[i].0)
                &&& start <= rebuild@[i].0 < end
                &&& rebuild@[i].1 == offset + rebuild@[i].0 - start
            },
            forall|j: int| #![trigger plain[j]] 0 <= j < done && start <= plain[j] < end ==> exists|i: int| 0 <= i < rebuild@.len() && #[trigger] rebuild@[i].0 == plain[j],
    {
        let r = *row;
        proof {
            assert(plain[done] == r);
            assert(plain.to_set() == rows@);
            assert(plain.to_set().contains(r));
            assert(plain.take(done + 1).drop_last() =~= plain.take(done));
            assert(plain.take(done + 1).last() == r);
        }
        let ghost before = rebuild@;
        if start <= r && r < end {
            rebuild.push((r, offset + (r - start)));
        }
        proof {
            assert forall|j: int| #![trigger plain[j]] 0 <= j < done + 1 && start <= plain[j] < end implies
                exists|i: int| 0 <= i < rebuild@.len() && #[trigger] rebuild@[i].0 == plain[j] by {
                if j < done {
                    let i = choose|i: int| 0 <= i < before.len() && #[trigger] before[i].0 == plain[j];
                    assert(rebuild@[i] == before[i]);
                } else {
                    let last = rebuild@.len() - 1;
                    assert(rebuild@[last].0 == plain[j]);
                }
            }
            done = done + 1;
        }
    }
    proof {
        assert(plain.take(done) =~= plain);
        assert(plain.to_set() == rows@);
        assert forall|r: usize| rows@.contains(r) && start <= r < end implies exists|i: int| 0 <= i < rebuild@.len() && #[trigger] rebuild@[i].0 == r by {
            assert(plain.to_set().contains(r));
            let j = plain.index_of(r);
            assert(plain[j] == r);
        }
    }
    rebuild
}

} // verus!
