use vstd::prelude::*;
use vstd::string::StringExecFns;

verus! {

/// Blank columns on each side of a tab title.
pub const TAB_TEXT_PADDING: usize = 2;

/// The titles of the open tabs and which one is active.
#[derive(Clone, Debug, Default, PartialEq, Eq)]
pub struct TabBarSnapshot {
    titles: Vec<String>,
    active_index: usize,
}

/// The active index that a tab bar keeps: the requested one, but never past the last tab.
pub open spec fn spec_clamped_active(requested: int, count: int) -> int {
    let last = if count > 0 { count - 1 } else { 0 };
    if requested < last { requested } else { last }
}

/// The active index of a tab bar names one of its tabs whenever it has any.
pub proof fn lemma_active_index_names_a_tab(requested: int, count: int)
    requires
        requested >= 0,
        count > 0,
    ensures
        0 <= spec_clamped_active(requested, count) < count,
        requested < count ==> spec_clamped_active(requested, count) == requested,
{
}

/// A title with its padding on both sides.
pub open spec fn spec_padded_title(title: Seq<char>) -> Seq<char> {
    seq![' ', ' '] + title + seq![' ', ' ']
}

impl TabBarSnapshot {
    pub closed spec fn spec_titles(&self) -> Seq<String> {
        self.titles@
    }

    pub closed spec fn spec_active_index(&self) -> usize {
        self.active_index
    }

    /// A tab bar showing `titles`, with `active_index` clamped to the last tab.
    pub fn new(titles: Vec<String>, active_index: usize) -> (bar: TabBarSnapshot)
        ensures
            bar.spec_titles() == titles@,
            bar.spec_active_index() == spec_clamped_active(active_index as int, titles@.len() as int),
    {
        let last = if titles.len() > 0 { titles.len() - 1 } else { 0 };
        let active_index = if active_index < last { active_index } else { last };
        TabBarSnapshot { titles, active_index }
    }

    pub fn titles(&self) -> (titles: &[String])
        ensures
            titles@ == self.spec_titles(),
    {
        self.titles.as_slice()
    }

    pub fn active_index(&self) -> (index: usize)
        ensures
            index == self.spec_active_index(),
    {
        self.active_index
    }

    /// The bar is drawn only when there is more than one tab.
    pub fn is_shown(&self) -> (shown: bool)
        ensures
            shown == (self.spec_titles().len() > 1),
    {
        self.titles.len() > 1
    }
}

/// The text of a tab: its title with blank columns on both sides.
pub fn padded_tab_title(title: &str) -> (text: String)
    ensures
        text@ == spec_padded_title(title@),
{
    let mut text = "  ".to_owned();
    text.append(title);
    text.append("  ");
    proof {
        reveal_strlit("  ");
        assert(text@ =~= spec_padded_title(title@));
    }
    text
}

} // verus!
