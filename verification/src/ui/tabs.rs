use vstd::prelude::*;
use vstd::string::{StrSliceExecFns, StringExecFns};
use std::sync::mpsc::Sender;
use crate::screen::cell::ScreenSnapshot;
use crate::size::TerminalSize;
use crate::ui::session::{SessionClosed, SessionInput};
use crate::ui::text::{is_whitespace, push_char, unicode_white_space};

verus! {

#[verifier::external_type_specification]
#[verifier::external_body]
#[verifier::reject_recursive_types(T)]
pub struct ExSender<T>(Sender<T>);

/// What the tab list needs of a tab. Each operation is tied to a relation over the tab's
/// values that an implementation may define to say what it does; by default each
/// relation holds of every value, so the operations then promise nothing more.
pub trait TerminalTab: Sized {
    /// Whether input for the tab's shell goes to `tx`.
    open spec fn sends_to(&self, tx: Sender<SessionInput>) -> bool {
        true
    }

    /// Whether `title` is the tab's title.
    open spec fn titled(&self, title: Seq<char>) -> bool {
        true
    }

    /// Whether `snapshot` is what the tab's terminal shows.
    open spec fn shows(&self, snapshot: ScreenSnapshot) -> bool {
        true
    }

    /// Whether applying the output that arrived took `before` to `after`, with `updated`
    /// saying whether there was any.
    open spec fn drained(before: Self, after: Self, updated: bool) -> bool {
        true
    }

    /// Whether resizing `before` to `size` took it to `after`, succeeding or not as
    /// `succeeded` says.
    open spec fn resized(before: Self, after: Self, size: TerminalSize, succeeded: bool) -> bool {
        true
    }

    /// Where input for the tab's shell goes.
    fn input_tx(&self) -> (tx: &Sender<SessionInput>)
        ensures
            self.sends_to(*tx);

    /// The title shown in the tab bar.
    fn title(&self) -> (title: &str)
        ensures
            self.titled(title@);

    /// What the tab's terminal shows now.
    fn snapshot(&self) -> (snapshot: ScreenSnapshot)
        ensures
            self.shows(snapshot);

    /// Applies the output that arrived; says whether there was any.
    fn drain_output(&mut self) -> (updated: bool)
        ensures
            Self::drained(*old(self), *final(self), updated);

    /// Gives the tab's terminal a new size and tells its shell; fails when the shell is gone.
    fn resize(&mut self, size: TerminalSize) -> (result: Result<(), SessionClosed>)
        ensures
            Self::resized(*old(self), *final(self), size, result is Ok);
}

/// Each tab of `before` drained into the same place of `after`, its answer in `updates`.
pub open spec fn all_drained<T: TerminalTab>(before: Seq<T>, after: Seq<T>, updates: Seq<bool>) -> bool {
    &&& after.len() == before.len()
    &&& updates.len() == before.len()
    &&& forall|i: int| 0 <= i < before.len() ==> #[trigger] T::drained(before[i], after[i], updates[i])
}

/// The first `count` tabs of `before` resized to `size` without failing, into `after`.
pub open spec fn resized_before<T: TerminalTab>(before: Seq<T>, after: Seq<T>, size: TerminalSize, count: int) -> bool {
    forall|i: int| 0 <= i < count ==> #[trigger] T::resized(before[i], after[i], size, true)
}

/// Resizing stopped at tab `k` of `before`, whose shell was gone: the tabs before it were
/// resized, it reported the failure, and the tabs after it were not touched.
pub open spec fn resize_stopped_at<T: TerminalTab>(before: Seq<T>, after: Seq<T>, size: TerminalSize, k: int) -> bool {
    &&& 0 <= k < before.len()
    &&& after.len() == before.len()
    &&& resized_before(before, after, size, k)
    &&& T::resized(before[k], after[k], size, false)
    &&& forall|i: int| k < i < before.len() ==> #[trigger] after[i] == before[i]
}

/// The open tabs and which one is active.
pub struct Tabs<T> {
    tabs: Vec<T>,
    active: usize,
}

/// The active tab after closing it: the same index, or the new last tab.
pub open spec fn spec_after_close(active: int, remaining: int) -> int {
    let last = if remaining > 0 { remaining - 1 } else { 0 };
    if active < last { active } else { last }
}

/// The tab after `active` among `count`, the first after the last.
pub open spec fn spec_next_index(active: int, count: int) -> int {
    (active + 1) % count
}

/// The tab before `active` among `count`, the last before the first.
pub open spec fn spec_previous_index(active: int, count: int) -> int {
    if active == 0 { count - 1 } else { active - 1 }
}

/// Going to the next tab and back to the previous one returns to the same tab, and the
/// other way round.
pub proof fn lemma_next_and_previous_undo_each_other(active: int, count: int)
    requires
        count > 1,
        0 <= active < count,
    ensures
        spec_previous_index(spec_next_index(active, count), count) == active,
        spec_next_index(spec_previous_index(active, count), count) == active,
        0 <= spec_next_index(active, count) < count,
        0 <= spec_previous_index(active, count) < count,
{
    if active + 1 < count {
        vstd::arithmetic::div_mod::lemma_small_mod((active + 1) as nat, count as nat);
    } else {
        vstd::arithmetic::div_mod::lemma_mod_self_0(count);
    }
    let previous = spec_previous_index(active, count);
    if previous + 1 < count {
        vstd::arithmetic::div_mod::lemma_small_mod((previous + 1) as nat, count as nat);
    } else {
        vstd::arithmetic::div_mod::lemma_mod_self_0(count);
    }
}

impl<T> Tabs<T> {
    pub closed spec fn spec_tabs(&self) -> Seq<T> {
        self.tabs@
    }

    pub closed spec fn spec_active(&self) -> int {
        self.active as int
    }

    /// The active index names a tab, or is 0 when there are none.
    pub open spec fn wf(&self) -> bool {
        if self.spec_tabs().len() > 0 {
            0 <= self.spec_active() < self.spec_tabs().len()
        } else {
            self.spec_active() == 0
        }
    }

    /// No tabs yet.
    pub fn new() -> (tabs: Tabs<T>)
        ensures
            tabs.wf(),
            tabs.spec_tabs().len() == 0,
            tabs.spec_active() == 0,
    {
        Tabs { tabs: Vec::new(), active: 0 }
    }

    /// Adds a tab at the end and makes it active.
    pub fn push(&mut self, tab: T)
        ensures
            final(self).wf(),
            final(self).spec_tabs() == old(self).spec_tabs().push(tab),
            final(self).spec_active() == old(self).spec_tabs().len(),
    {
        self.tabs.push(tab);
        self.active = self.tabs.len() - 1;
    }

    /// Closes the active tab; the next one, or else the new last one, becomes active.
    /// Says whether there was a tab to close.
    pub fn close_active(&mut self) -> (closed: bool)
        requires
            old(self).wf(),
        ensures
            final(self).wf(),
            closed == (old(self).spec_tabs().len() > 0),
            closed ==> final(self).spec_tabs() == old(self).spec_tabs().remove(old(self).spec_active()),
            closed ==> final(self).spec_active() == spec_after_close(
                old(self).spec_active(),
                old(self).spec_tabs().len() - 1,
            ),
            !closed ==> final(self).spec_tabs() == old(self).spec_tabs()
                && final(self).spec_active() == old(self).spec_active(),
    {
        if self.tabs.len() == 0 {
            return false;
        }
        self.tabs.remove(self.active);
        let last = if self.tabs.len() > 0 { self.tabs.len() - 1 } else { 0 };
        if self.active > last {
            self.active = last;
        }
        true
    }

    pub fn is_empty(&self) -> (empty: bool)
        ensures
            empty == (self.spec_tabs().len() == 0),
    {
        self.tabs.len() == 0
    }

    pub fn len(&self) -> (len: usize)
        ensures
            len == self.spec_tabs().len(),
    {
        self.tabs.len()
    }

    pub fn active_index(&self) -> (index: usize)
        ensures
            index == self.spec_active(),
    {
        self.active
    }

    /// Makes the next tab active, the first after the last. Says whether there was
    /// another tab to go to.
    pub fn activate_next(&mut self) -> (moved: bool)
        requires
            old(self).wf(),
        ensures
            final(self).wf(),
            final(self).spec_tabs() == old(self).spec_tabs(),
            moved == (old(self).spec_tabs().len() > 1),
            moved ==> final(self).spec_active() == spec_next_index(old(self).spec_active(), old(self).spec_tabs().len() as int),
            !moved ==> final(self).spec_active() == old(self).spec_active(),
    {
        if self.tabs.len() <= 1 {
            return false;
        }
        self.active = (self.active + 1) % self.tabs.len();
        true
    }

    /// Makes the previous tab active, the last before the first. Says whether there was
    /// another tab to go to.
    pub fn activate_previous(&mut self) -> (moved: bool)
        requires
            old(self).wf(),
        ensures
            final(self).wf(),
            final(self).spec_tabs() == old(self).spec_tabs(),
            moved == (old(self).spec_tabs().len() > 1),
            moved ==> final(self).spec_active() == spec_previous_index(old(self).spec_active(), old(self).spec_tabs().len() as int),
            !moved ==> final(self).spec_active() == old(self).spec_active(),
    {
        if self.tabs.len() <= 1 {
            return false;
        }
        self.active = if self.active == 0 { self.tabs.len() - 1 } else { self.active - 1 };
        true
    }

    /// The active tab, if there is one.
    pub fn active_tab(&self) -> (tab: Option<&T>)
        requires
            self.wf(),
        ensures
            self.spec_tabs().len() > 0 ==> tab is Some && *tab.unwrap() == self.spec_tabs()[self.spec_active()],
            self.spec_tabs().len() == 0 ==> tab is None,
    {
        if self.active < self.tabs.len() {
            Some(&self.tabs[self.active])
        } else {
            None
        }
    }

    /// The tab at `index`, for changes that only it sees.
    pub fn get_mut(&mut self, index: usize) -> (tab: Option<&mut T>)
        ensures
            index >= old(self).spec_tabs().len() ==> tab is None && *final(self) == *old(self),
            index < old(self).spec_tabs().len() ==> {
                &&& tab is Some
                &&& *tab.unwrap() == old(self).spec_tabs()[index as int]
                &&& final(self).spec_tabs() == old(self).spec_tabs().update(index as int, *final(tab.unwrap()))
                &&& final(self).spec_active() == old(self).spec_active()
            },
    {
        if index < self.tabs.len() {
            Some(&mut self.tabs[index])
        } else {
            None
        }
    }
}


impl<T: TerminalTab> Tabs<T> {
    /// Where input for the active tab's shell goes, if there is a tab.
    pub fn active_input_tx(&self) -> (tx: Option<&Sender<SessionInput>>)
        requires
            self.wf(),
        ensures
            tx is Some == (self.spec_tabs().len() > 0),
            tx is Some ==> self.spec_tabs()[self.spec_active()].sends_to(*tx.unwrap()),
    {
        match self.active_tab() {
            Some(tab) => Some(tab.input_tx()),
            None => None,
        }
    }

    /// Resizes every tab in order, stopping at the first whose shell is gone.
    pub fn resize_all(&mut self, size: TerminalSize) -> (result: Result<(), SessionClosed>)
        requires
            old(self).wf(),
        ensures
            final(self).wf(),
            final(self).spec_tabs().len() == old(self).spec_tabs().len(),
            final(self).spec_active() == old(self).spec_active(),
            result is Ok ==> resized_before(
                old(self).spec_tabs(),
                final(self).spec_tabs(),
                size,
                old(self).spec_tabs().len() as int,
            ),
            result is Err ==> exists|k: int| #[trigger] resize_stopped_at(old(self).spec_tabs(), final(self).spec_tabs(), size, k),
    {
        let ghost before = self.tabs@;
        let mut index: usize = 0;
        while index < self.tabs.len()
            invariant
                old(self).wf(),
                before == old(self).tabs@,
                index <= self.tabs@.len(),
                self.tabs@.len() == before.len(),
                self.active == old(self).active,
                resized_before(before, self.tabs@, size, index as int),
                forall|i: int| index <= i < before.len() ==> #[trigger] self.tabs@[i] == before[i],
            decreases self.tabs@.len() - index,
        {
            let ghost prev = self.tabs@;
            let outcome = self.tabs[index].resize(size);
            proof {
                assert(self.tabs@ == prev.update(index as int, self.tabs@[index as int]));
                assert(T::resized(before[index as int], self.tabs@[index as int], size, outcome is Ok));
            }
            if outcome.is_err() {
                assert(resize_stopped_at(before, self.tabs@, size, index as int)) by {
                    assert forall|i: int| 0 <= i < index implies #[trigger] T::resized(before[i], self.tabs@[i], size, true) by {
                        assert(T::resized(before[i], prev[i], size, true));
                    }
                    assert forall|i: int| index < i < before.len() implies #[trigger] self.tabs@[i] == before[i] by {
                        assert(prev[i] == before[i]);
                    }
                }
                return outcome;
            }
            assert(resized_before(before, self.tabs@, size, index + 1)) by {
                assert forall|i: int| 0 <= i < index + 1 implies #[trigger] T::resized(before[i], self.tabs@[i], size, true) by {
                    if i < index {
                        assert(T::resized(before[i], prev[i], size, true));
                    }
                }
            }
            index = index + 1;
        }
        Ok(())
    }

    /// The title of every tab, in order.
    pub fn titles(&self) -> (titles: Vec<String>)
        ensures
            titles@.len() == self.spec_tabs().len(),
            forall|i: int| 0 <= i < titles@.len() ==> #[trigger] self.spec_tabs()[i].titled(titles@[i]@),
    {
        let mut titles: Vec<String> = Vec::new();
        let mut i: usize = 0;
        while i < self.tabs.len()
            invariant
                i <= self.tabs@.len(),
                titles@.len() == i,
                forall|j: int| 0 <= j < i ==> #[trigger] self.tabs@[j].titled(titles@[j]@),
            decreases self.tabs@.len() - i,
        {
            titles.push(self.tabs[i].title().to_owned());
            i = i + 1;
        }
        titles
    }

    /// What the active tab shows, if there is one.
    pub fn active_snapshot(&self) -> (snapshot: Option<ScreenSnapshot>)
        requires
            self.wf(),
        ensures
            snapshot is Some == (self.spec_tabs().len() > 0),
            snapshot is Some ==> self.spec_tabs()[self.spec_active()].shows(snapshot.unwrap()),
    {
        match self.active_tab() {
            Some(tab) => Some(tab.snapshot()),
            None => None,
        }
    }

    /// Applies the output that arrived for every tab, in order; says whether the active
    /// tab had any.
    pub fn drain_outputs(&mut self) -> (active_updated: bool)
        requires
            old(self).wf(),
        ensures
            final(self).wf(),
            final(self).spec_active() == old(self).spec_active(),
            exists|updates: Seq<bool>| #[trigger] all_drained(old(self).spec_tabs(), final(self).spec_tabs(), updates)
                && active_updated == (old(self).spec_tabs().len() > 0 && updates[old(self).spec_active()]),
    {
        let ghost before = self.tabs@;
        let ghost mut updates: Seq<bool> = Seq::empty();
        let active = self.active;
        let mut active_updated = false;
        let mut index: usize = 0;
        while index < self.tabs.len()
            invariant
                old(self).wf(),
                before == old(self).tabs@,
                index <= self.tabs@.len(),
                self.tabs@.len() == before.len(),
                self.active == active,
                active == old(self).active,
                updates.len() == index,
                forall|i: int| 0 <= i < index ==> #[trigger] T::drained(before[i], self.tabs@[i], updates[i]),
                forall|i: int| index <= i < before.len() ==> #[trigger] self.tabs@[i] == before[i],
                active_updated == (active < index && updates[active as int]),
            decreases self.tabs@.len() - index,
        {
            let ghost prev = self.tabs@;
            let updated = self.tabs[index].drain_output();
            proof {
                assert(self.tabs@ == prev.update(index as int, self.tabs@[index as int]));
                assert(T::drained(before[index as int], self.tabs@[index as int], updated));
                assert forall|i: int| 0 <= i < index implies #[trigger] T::drained(before[i], self.tabs@[i], updates[i]) by {
                    assert(T::drained(before[i], prev[i], updates[i]));
                }
                assert forall|i: int| index < i < before.len() implies #[trigger] self.tabs@[i] == before[i] by {
                    assert(prev[i] == before[i]);
                }
                updates = updates.push(updated);
            }
            active_updated = active_updated || (updated && index == active);
            index = index + 1;
        }
        assert(all_drained(old(self).spec_tabs(), self.spec_tabs(), updates));
        assert(old(self).spec_tabs().len() > 0 ==> active < index);
        assert(active_updated == (old(self).spec_tabs().len() > 0 && updates[old(self).spec_active()]));
        active_updated
    }
}


/// Both kinds of path separator.
pub open spec fn spec_is_separator(c: char) -> bool {
    c == '/' || c == '\\'
}

/// Without its leading white space.
pub open spec fn spec_trim_front(s: Seq<char>) -> Seq<char>
    decreases s.len(),
{
    if s.len() > 0 && unicode_white_space(s[0]) {
        spec_trim_front(s.drop_first())
    } else {
        s
    }
}

/// Without its trailing white space.
pub open spec fn spec_trim_back(s: Seq<char>) -> Seq<char>
    decreases s.len(),
{
    if s.len() > 0 && unicode_white_space(s.last()) {
        spec_trim_back(s.drop_last())
    } else {
        s
    }
}

/// Without leading and trailing white space.
pub open spec fn spec_trim(s: Seq<char>) -> Seq<char> {
    spec_trim_back(spec_trim_front(s))
}

/// Where the path component that ends at `end` starts: just after the separator before it.
pub open spec fn spec_component_start(s: Seq<char>, end: int) -> int
    decreases end,
{
    if end <= 0 {
        0
    } else if spec_is_separator(s[end - 1]) {
        end
    } else {
        spec_component_start(s, end - 1)
    }
}

/// A component starts at or before its end.
pub proof fn lemma_component_start_bounds(s: Seq<char>, end: int)
    requires
        end >= 0,
    ensures
        0 <= spec_component_start(s, end) <= end,
    decreases end,
{
    if end > 0 && !spec_is_separator(s[end - 1]) {
        lemma_component_start_bounds(s, end - 1);
    }
}

/// A drive prefix such as `C:` at the start of a component.
pub open spec fn spec_has_drive(comp: Seq<char>) -> bool {
    comp.len() >= 2 && comp[1] == ':' && (('a' <= comp[0] && comp[0] <= 'z') || ('A' <= comp[0]
        && comp[0] <= 'Z'))
}

/// Where the file name of the path `s[..end]` lies: its last component, past trailing
/// separators and `.` components; none when that is `..`, a lone `.` or a bare drive.
pub open spec fn spec_file_name(s: Seq<char>, end: int) -> Option<(int, int)>
    decreases end,
{
    if end <= 0 || end > s.len() {
        None
    } else if spec_is_separator(s[end - 1]) {
        spec_file_name(s, end - 1)
    } else {
        let start = spec_component_start(s, end);
        let comp = s.subrange(start, end);
        if comp == seq!['.'] {
            if start == 0 {
                None
            } else {
                proof {
                    lemma_component_start_bounds(s, end - 1);
                }
                spec_file_name(s, start)
            }
        } else if comp == seq!['.', '.'] {
            None
        } else if start == 0 && spec_has_drive(comp) {
            if comp.len() > 2 { Some((2, end)) } else { None }
        } else {
            Some((start, end))
        }
    }
}

/// The last `.` in `s[start..end]`.
pub open spec fn spec_last_dot(s: Seq<char>, start: int, end: int) -> Option<int>
    decreases end - start,
{
    if end <= start {
        None
    } else if s[end - 1] == '.' {
        Some(end - 1)
    } else {
        spec_last_dot(s, start, end - 1)
    }
}

/// The file name without its extension; a name that only starts with a dot keeps it.
pub open spec fn spec_stem(s: Seq<char>, start: int, end: int) -> (int, int) {
    match spec_last_dot(s, start, end) {
        Some(dot) => if dot == start { (start, end) } else { (start, dot) },
        None => (start, end),
    }
}

/// The tab title for a shell program: the file name of its path without extension,
/// or the trimmed program when there is none, or "shell" for a blank program.
pub open spec fn spec_tab_title(program: Seq<char>) -> Seq<char> {
    let t = spec_trim(program);
    if t.len() == 0 {
        seq!['s', 'h', 'e', 'l', 'l']
    } else {
        match spec_file_name(t, t.len() as int) {
            Some((start, end)) => {
                let (a, b) = spec_stem(t, start, end);
                if a < b { t.subrange(a, b) } else { t }
            },
            None => t,
        }
    }
}

proof fn lemma_file_name_bounds(s: Seq<char>, end: int)
    ensures
        spec_file_name(s, end) matches Some((a, b)) ==> 0 <= a <= b <= end <= s.len(),
    decreases end,
{
    if end <= 0 || end > s.len() {
    } else if spec_is_separator(s[end - 1]) {
        lemma_file_name_bounds(s, end - 1);
    } else {
        lemma_component_start_bounds(s, end);
        let start = spec_component_start(s, end);
        if s.subrange(start, end) == seq!['.'] && start != 0 {
            lemma_component_start_bounds(s, end - 1);
            lemma_file_name_bounds(s, start);
        }
    }
}

proof fn lemma_last_dot_bounds(s: Seq<char>, start: int, end: int)
    ensures
        spec_last_dot(s, start, end) matches Some(d) ==> start <= d < end,
    decreases end - start,
{
    if end > start && s[end - 1] != '.' {
        lemma_last_dot_bounds(s, start, end - 1);
    }
}

/// A tab always has a title.
pub proof fn lemma_tab_title_is_never_empty(program: Seq<char>)
    ensures
        spec_tab_title(program).len() > 0,
{
    let t = spec_trim(program);
    if t.len() > 0 {
        lemma_file_name_bounds(t, t.len() as int);
        if let Some((start, end)) = spec_file_name(t, t.len() as int) {
            lemma_last_dot_bounds(t, start, end);
        }
    }
}

fn is_separator(c: char) -> (sep: bool)
    ensures
        sep == spec_is_separator(c),
{
    c == '/' || c == '\\'
}

/// The characters of `text`.
fn chars_of(text: &str) -> (chars: Vec<char>)
    ensures
        chars@ == text@,
{
    let n = text.unicode_len();
    let mut chars: Vec<char> = Vec::new();
    let mut i: usize = 0;
    while i < n
        invariant
            n == text@.len(),
            i <= n,
            chars@ == text@.subrange(0, i as int),
        decreases n - i,
    {
        chars.push(text.get_char(i));
        i = i + 1;
        assert(chars@ =~= text@.subrange(0, i as int));
    }
    assert(text@.subrange(0, n as int) =~= text@);
    chars
}

/// The text of `s[start..end]`.
fn string_of(s: &Vec<char>, start: usize, end: usize) -> (text: String)
    requires
        start <= end <= s@.len(),
    ensures
        text@ == s@.subrange(start as int, end as int),
{
    let mut text = String::new();
    let mut i = start;
    while i < end
        invariant
            start <= i <= end,
            end <= s@.len(),
            text@ == s@.subrange(start as int, i as int),
        decreases end - i,
    {
        push_char(&mut text, s[i]);
        i = i + 1;
        assert(text@ =~= s@.subrange(start as int, i as int));
    }
    text
}

/// Where the text without leading and trailing white space lies.
fn trim_bounds(s: &Vec<char>) -> (bounds: (usize, usize))
    ensures
        bounds.0 <= bounds.1 <= s@.len(),
        s@.subrange(bounds.0 as int, bounds.1 as int) == spec_trim(s@),
{
    let n = s.len();
    let mut start: usize = 0;
    assert(s@.subrange(0, n as int) =~= s@);
    while start < n && is_whitespace(s[start])
        invariant
            n == s@.len(),
            start <= n,
            spec_trim_front(s@) == spec_trim_front(s@.subrange(start as int, n as int)),
        decreases n - start,
    {
        assert(s@.subrange(start as int, n as int).drop_first() =~= s@.subrange(start + 1, n as int));
        start = start + 1;
    }
    assert(spec_trim_front(s@) == s@.subrange(start as int, n as int));
    let mut end: usize = n;
    while end > start && is_whitespace(s[end - 1])
        invariant
            n == s@.len(),
            start <= end <= n,
            spec_trim(s@) == spec_trim_back(s@.subrange(start as int, end as int)),
        decreases end,
    {
        assert(s@.subrange(start as int, end as int).drop_last() =~= s@.subrange(start as int, end - 1));
        end = end - 1;
    }
    (start, end)
}

/// Where the component that ends at `end` starts.
fn component_start(s: &Vec<char>, end: usize) -> (start: usize)
    requires
        end <= s@.len(),
    ensures
        start == spec_component_start(s@, end as int),
        start <= end,
{
    let mut i = end;
    while i > 0 && !is_separator(s[i - 1])
        invariant
            i <= end <= s@.len(),
            spec_component_start(s@, i as int) == spec_component_start(s@, end as int),
        decreases i,
    {
        i = i - 1;
    }
    i
}

/// Where the file name of `s[..end]` lies.
fn file_name(s: &Vec<char>, end: usize) -> (name: Option<(usize, usize)>)
    ensures
        match spec_file_name(s@, end as int) {
            Some((a, b)) => name is Some && name.unwrap().0 == a && name.unwrap().1 == b,
            None => name is None,
        },
        name is Some ==> name.unwrap().0 <= name.unwrap().1 <= end <= s@.len(),
    decreases end,
{
    if end == 0 || end > s.len() {
        return None;
    }
    if is_separator(s[end - 1]) {
        return file_name(s, end - 1);
    }
    let start = component_start(s, end);
    let len = end - start;
    let ghost comp = s@.subrange(start as int, end as int);
    if len == 1 && s[start] == '.' {
        assert(comp =~= seq!['.']);
        if start == 0 {
            return None;
        }
        return file_name(s, start);
    }
    if len == 1 {
        assert(comp != seq!['.']) by {
            assert(comp[0] != '.');
        }
    }
    if len == 2 && s[start] == '.' && s[start + 1] == '.' {
        assert(comp =~= seq!['.', '.']);
        return None;
    }
    if len == 2 {
        assert(comp != seq!['.', '.']) by {
            if comp =~= seq!['.', '.'] {
                assert(comp[0] == '.' && comp[1] == '.');
            }
        }
    }
    if len != 1 {
        assert(comp != seq!['.']) by {
            if comp == seq!['.'] {
                assert(comp.len() == 1);
            }
        }
    }
    if len != 2 {
        assert(comp != seq!['.', '.']) by {
            if comp == seq!['.', '.'] {
                assert(comp.len() == 2);
            }
        }
    }
    let has_drive = len >= 2 && s[start + 1] == ':' && (('a' <= s[start] && s[start] <= 'z') || ('A'
        <= s[start] && s[start] <= 'Z'));
    if start == 0 && has_drive {
        if len > 2 {
            return Some((2, end));
        }
        return None;
    }
    Some((start, end))
}

/// Where the last `.` of `s[start..end]` is.
fn last_dot(s: &Vec<char>, start: usize, end: usize) -> (dot: Option<usize>)
    requires
        start <= end <= s@.len(),
    ensures
        match spec_last_dot(s@, start as int, end as int) {
            Some(d) => dot is Some && dot.unwrap() == d,
            None => dot is None,
        },
        dot is Some ==> start <= dot.unwrap() < end,
{
    let mut i = end;
    while i > start
        invariant
            start <= i <= end <= s@.len(),
            spec_last_dot(s@, start as int, i as int) == spec_last_dot(s@, start as int, end as int),
        decreases i,
    {
        if s[i - 1] == '.' {
            return Some(i - 1);
        }
        i = i - 1;
    }
    None
}

/// The title of a tab that runs `program`.
pub fn tab_title_for_program(program: &str) -> (title: String)
    ensures
        title@ == spec_tab_title(program@),
{
    let chars = chars_of(program);
    let (start, end) = trim_bounds(&chars);
    let trimmed = string_of(&chars, start, end);
    let t = chars_of(trimmed.as_str());
    if t.len() == 0 {
        let title = "shell".to_owned();
        proof {
            reveal_strlit("shell");
        }
        return title;
    }
    match file_name(&t, t.len()) {
        Some((name_start, name_end)) => {
            let (a, b) = match last_dot(&t, name_start, name_end) {
                Some(dot) => if dot == name_start { (name_start, name_end) } else { (name_start, dot) },
                None => (name_start, name_end),
            };
            if a < b {
                string_of(&t, a, b)
            } else {
                trimmed
            }
        },
        None => trimmed,
    }
}

} // verus!
