use vstd::prelude::*;
use crate::screen::cell::{Rgba, ScreenCell, ScreenSnapshot};
use crate::view::copy_mode::{copy_mode_highlights, CopyModeHighlights, CopyModeSnapshot, spec_cursor_cell, spec_selection_spans};
use crate::view::tab_bar::TabBarSnapshot;
use crate::view::text_damage::{spec_damaged_rows, TextDamage};
use crate::view::viewport::{spec_min, spec_sat_sub, ViewportState};
use crate::ui::movement::lines_of;

verus! {

/// Pixels kept free on the left and the right of the text together.
pub const HORIZONTAL_PADDING: u32 = 20;

/// The width left for text in a window `width` pixels wide: at least one pixel.
pub fn terminal_content_width(width: u32) -> (content: u32)
    ensures
        content == if width > HORIZONTAL_PADDING + 1 { width - HORIZONTAL_PADDING } else { 1 },
{
    if width > HORIZONTAL_PADDING + 1 {
        width - HORIZONTAL_PADDING
    } else {
        1
    }
}

/// The color text is drawn in at a cell: the caret's contrast color under the caret,
/// else the cell's own foreground, if it has one.
pub fn cell_text_color(
    row: usize,
    col: usize,
    cursor_row: usize,
    cursor_col: usize,
    cursor_text_color: Rgba,
    cell: &ScreenCell,
) -> (color: Option<Rgba>)
    ensures
        color == if row == cursor_row && col == cursor_col { Some(cursor_text_color) } else { cell.style.fg_rgba },
{
    if row == cursor_row && col == cursor_col {
        Some(cursor_text_color)
    } else {
        cell.foreground_rgba()
    }
}

/// Where the caret goes.
#[derive(Clone, Copy, Debug, PartialEq, Eq, Structural)]
pub enum CaretPlace {
    /// The terminal hides its cursor.
    Hidden,
    /// The cursor is on a row scrolled out of view.
    Offscreen,
    /// The cursor is on screen at (visible row, column).
    At(usize, usize),
}

/// What the terminal view shows, as plain values: the screen, the tab bar, the scroll
/// position, copy mode, and which text must be laid out again.
#[derive(Debug)]
pub struct TerminalViewState {
    snapshot: ScreenSnapshot,
    tab_bar: TabBarSnapshot,
    viewport: ViewportState,
    copy_mode: CopyModeSnapshot,
    text_damage: TextDamage,
}

/// The rows a view scrolls over: the snapshot's rows, at least one.
pub open spec fn spec_row_count(snapshot: ScreenSnapshot) -> int {
    if snapshot.lines@.len() > 0 { snapshot.lines@.len() as int } else { 1 }
}

impl TerminalViewState {
    pub closed spec fn spec_snapshot(&self) -> ScreenSnapshot {
        self.snapshot
    }

    pub closed spec fn spec_viewport(&self) -> ViewportState {
        self.viewport
    }

    pub closed spec fn spec_copy_mode(&self) -> CopyModeSnapshot {
        self.copy_mode
    }

    pub closed spec fn spec_tab_bar(&self) -> TabBarSnapshot {
        self.tab_bar
    }

    pub closed spec fn spec_damage(&self) -> TextDamage {
        self.text_damage
    }

    pub closed spec fn wf(&self) -> bool {
        self.viewport.wf()
    }

    /// An empty view showing `visible_rows` rows; everything is to be drawn.
    pub fn new(visible_rows: usize) -> (view: TerminalViewState)
        ensures
            view.wf(),
            view.spec_snapshot().lines@.len() == 0,
            view.spec_viewport().spec_offset() == 0,
            view.spec_copy_mode() == CopyModeSnapshot::spec_inactive(),
            view.spec_damage() is All,
    {
        TerminalViewState {
            snapshot: ScreenSnapshot::default(),
            tab_bar: TabBarSnapshot::new(Vec::new(), 0),
            viewport: ViewportState::new(visible_rows),
            copy_mode: CopyModeSnapshot::inactive(),
            text_damage: TextDamage::All,
        }
    }

    pub fn row_count(&self) -> (count: usize)
        ensures
            count == spec_row_count(self.spec_snapshot()),
    {
        if self.snapshot.lines.len() > 0 {
            self.snapshot.lines.len()
        } else {
            1
        }
    }

    pub fn snapshot(&self) -> (snapshot: &ScreenSnapshot)
        ensures
            *snapshot == self.spec_snapshot(),
    {
        &self.snapshot
    }

    pub fn has_tab_bar(&self) -> (shown: bool)
        ensures
            shown == (self.spec_tab_bar().spec_titles().len() > 1),
    {
        self.tab_bar.is_shown()
    }

    pub fn tab_bar(&self) -> (tab_bar: &TabBarSnapshot)
        ensures
            *tab_bar == self.spec_tab_bar(),
    {
        &self.tab_bar
    }

    /// Shows a new tab bar; the text is laid out again.
    pub fn set_tab_bar(&mut self, tab_bar: TabBarSnapshot)
        requires
            old(self).wf(),
        ensures
            final(self).wf(),
            final(self).spec_tab_bar() == tab_bar,
            final(self).spec_snapshot() == old(self).spec_snapshot(),
            final(self).spec_viewport() == old(self).spec_viewport(),
            final(self).spec_copy_mode() == old(self).spec_copy_mode(),
            final(self).spec_damage() is All,
    {
        self.tab_bar = tab_bar;
        self.text_damage.mark_all();
    }

    /// Everything must be laid out again.
    pub fn invalidate_all_text(&mut self)
        requires
            old(self).wf(),
        ensures
            final(self).wf(),
            final(self).spec_damage() is All,
            final(self).spec_tab_bar() == old(self).spec_tab_bar(),
            final(self).spec_snapshot() == old(self).spec_snapshot(),
            final(self).spec_viewport() == old(self).spec_viewport(),
            final(self).spec_copy_mode() == old(self).spec_copy_mode(),
    {
        self.text_damage.mark_all();
    }

    /// Hands out the damage gathered so far and starts over with none.
    pub fn take_text_damage(&mut self) -> (damage: TextDamage)
        requires
            old(self).wf(),
        ensures
            final(self).wf(),
            damage == old(self).spec_damage(),
            final(self).spec_damage() is Clean,
            final(self).spec_tab_bar() == old(self).spec_tab_bar(),
            final(self).spec_snapshot() == old(self).spec_snapshot(),
            final(self).spec_viewport() == old(self).spec_viewport(),
            final(self).spec_copy_mode() == old(self).spec_copy_mode(),
    {
        let mut damage = TextDamage::Clean;
        std::mem::swap(&mut damage, &mut self.text_damage);
        damage
    }

    /// Shows copy mode; an active copy-mode cursor is scrolled into view.
    pub fn set_copy_mode(&mut self, copy_mode: CopyModeSnapshot)
        requires
            old(self).wf(),
        ensures
            final(self).wf(),
            final(self).spec_copy_mode() == copy_mode,
            final(self).spec_snapshot() == old(self).spec_snapshot(),
            final(self).spec_tab_bar() == old(self).spec_tab_bar(),
            final(self).spec_damage() is All,
            !copy_mode.active ==> final(self).spec_viewport() == old(self).spec_viewport(),
            copy_mode.active && copy_mode.cursor.row < spec_row_count(old(self).spec_snapshot()) ==> {
                let range = final(self).spec_viewport().spec_range(spec_row_count(old(self).spec_snapshot()));
                range.0 <= copy_mode.cursor.row < range.1
            },
    {
        self.copy_mode = copy_mode;
        if self.copy_mode.active {
            let row_count = self.row_count();
            self.viewport.scroll_to_include(self.copy_mode.cursor.row, row_count);
        }
        self.text_damage.mark_all();
    }

    pub fn copy_mode_active(&self) -> (active: bool)
        ensures
            active == self.spec_copy_mode().active,
    {
        self.copy_mode.active
    }

    /// What copy mode highlights on the rows on screen; nothing when it is off.
    pub fn copy_mode_highlights(&mut self) -> (highlights: CopyModeHighlights)
        requires
            old(self).wf(),
        ensures
            final(self).wf(),
            final(self).spec_snapshot() == old(self).spec_snapshot(),
            final(self).spec_copy_mode() == old(self).spec_copy_mode(),
            final(self).spec_tab_bar() == old(self).spec_tab_bar(),
            final(self).spec_damage() == old(self).spec_damage(),
            !old(self).spec_copy_mode().active ==> highlights.selection@.len() == 0
                && highlights.cursor is None && final(self).spec_viewport() == old(self).spec_viewport(),
            old(self).spec_copy_mode().active ==> {
                let count = spec_row_count(old(self).spec_snapshot());
                let range = final(self).spec_viewport().spec_range(count);
                let lines = lines_of(old(self).spec_snapshot());
                &&& final(self).spec_viewport().spec_offset() == spec_min(
                    old(self).spec_viewport().spec_offset() as int,
                    old(self).spec_viewport().spec_max_offset(count),
                )
                &&& final(self).spec_viewport().spec_visible_rows() == old(self).spec_viewport().spec_visible_rows()
                &&& highlights.selection@ == match old(self).spec_copy_mode().selection {
                    Some(selection) => spec_selection_spans(selection, lines, range.0, range.1),
                    None => Seq::empty(),
                }
                &&& highlights.cursor == spec_cursor_cell(old(self).spec_copy_mode().cursor, lines, range.0, range.1)
            },
    {
        if !self.copy_mode.active {
            return CopyModeHighlights { selection: Vec::new(), cursor: None };
        }
        let row_count = self.row_count();
        self.viewport.clamp(row_count);
        let (start, end) = self.viewport.visible_range(row_count);
        copy_mode_highlights(&self.copy_mode, &self.snapshot.lines, start, end)
    }

    /// Shows a new screen. A view scrolled into the history keeps its first row in place,
    /// counting rows that fell off the top; one at the bottom stays at the bottom. When rows
    /// fell off or other rows come into view, everything is laid out again; else the rows
    /// that changed on screen are.
    pub fn set_snapshot(&mut self, snapshot: ScreenSnapshot)
        requires
            old(self).wf(),
        ensures
            final(self).wf(),
            final(self).spec_snapshot() == snapshot,
            final(self).spec_copy_mode() == old(self).spec_copy_mode(),
            final(self).spec_tab_bar() == old(self).spec_tab_bar(),
            final(self).spec_viewport().spec_visible_rows() == old(self).spec_viewport().spec_visible_rows(),
            ({
                let viewport = old(self).spec_viewport();
                let old_count = spec_row_count(old(self).spec_snapshot());
                let count = spec_row_count(snapshot);
                let vr = viewport.spec_visible_rows() as int;
                let previous = viewport.spec_range(old_count);
                let removed = spec_sat_sub(snapshot.history_start as int, old(self).spec_snapshot().history_start as int);
                let offset = if viewport.spec_offset() == 0 {
                    spec_min(0, spec_sat_sub(count, vr))
                } else {
                    let start = spec_sat_sub(previous.0, removed);
                    let first = spec_min(start, spec_sat_sub(count, vr));
                    let end = spec_min(first + vr, count);
                    spec_min(spec_sat_sub(count, end), spec_sat_sub(count, vr))
                };
                &&& final(self).spec_viewport().spec_offset() == offset
                &&& if removed > 0 || final(self).spec_viewport().spec_range(count) != previous {
                    final(self).spec_damage() is All
                } else {
                    &&& (final(self).spec_damage() is All) == (old(self).spec_damage() is All)
                    &&& !(final(self).spec_damage() is All) ==> final(self).spec_damage().spec_rows()
                        == old(self).spec_damage().spec_rows().union(spec_damaged_rows(
                            old(self).spec_snapshot(),
                            snapshot,
                            previous.0 as usize,
                            previous.1 as usize,
                        ))
                }
            }),
    {
        let previous = self.viewport.visible_range(self.row_count());
        let at_bottom = self.viewport.is_at_bottom();
        let removed = if snapshot.history_start > self.snapshot.history_start {
            snapshot.history_start - self.snapshot.history_start
        } else {
            0
        };
        let damage = TextDamage::between(&self.snapshot, &snapshot, previous.0..previous.1);
        self.snapshot = snapshot;
        let row_count = self.row_count();
        if at_bottom {
            self.viewport.clamp(row_count);
        } else {
            let start = if previous.0 > removed { previous.0 - removed } else { 0 };
            self.viewport.scroll_to_start(start, row_count);
        }
        let now = self.viewport.visible_range(row_count);
        if removed > 0 || now.0 != previous.0 || now.1 != previous.1 {
            self.text_damage.mark_all();
        } else {
            self.text_damage.merge(damage);
        }
    }

    /// Shows a new screen from its bottom; everything is laid out again.
    pub fn set_snapshot_at_bottom(&mut self, snapshot: ScreenSnapshot)
        requires
            old(self).wf(),
        ensures
            final(self).wf(),
            final(self).spec_snapshot() == snapshot,
            final(self).spec_viewport().spec_offset() == 0,
            final(self).spec_viewport().spec_visible_rows() == old(self).spec_viewport().spec_visible_rows(),
            final(self).spec_copy_mode() == old(self).spec_copy_mode(),
            final(self).spec_tab_bar() == old(self).spec_tab_bar(),
            final(self).spec_damage() is All,
    {
        self.snapshot = snapshot;
        self.viewport.reset();
        self.text_damage.mark_all();
    }

    /// A new window height in rows and a new screen; everything is laid out again.
    pub fn resize(&mut self, visible_rows: usize, snapshot: ScreenSnapshot)
        requires
            old(self).wf(),
        ensures
            final(self).wf(),
            final(self).spec_snapshot() == snapshot,
            final(self).spec_viewport().spec_visible_rows() == if visible_rows >= 1 { visible_rows } else { 1 },
            final(self).spec_viewport().spec_offset() == spec_min(
                old(self).spec_viewport().spec_offset() as int,
                spec_sat_sub(spec_row_count(snapshot), final(self).spec_viewport().spec_visible_rows() as int),
            ),
            final(self).spec_copy_mode() == old(self).spec_copy_mode(),
            final(self).spec_tab_bar() == old(self).spec_tab_bar(),
            final(self).spec_damage() is All,
    {
        self.snapshot = snapshot;
        let row_count = self.row_count();
        self.viewport.resize(visible_rows, row_count);
        self.text_damage.mark_all();
    }

    /// Scrolls `up` rows into the history, or back down when negative; everything is laid
    /// out again when other rows come into view.
    pub fn scroll_rows(&mut self, up: i64)
        requires
            old(self).wf(),
        ensures
            final(self).wf(),
            final(self).spec_snapshot() == old(self).spec_snapshot(),
            final(self).spec_copy_mode() == old(self).spec_copy_mode(),
            final(self).spec_tab_bar() == old(self).spec_tab_bar(),
            final(self).spec_viewport().spec_visible_rows() == old(self).spec_viewport().spec_visible_rows(),
            final(self).spec_viewport().spec_offset() == spec_min(
                if up >= 0 {
                    spec_min(old(self).spec_viewport().spec_offset() + up, usize::MAX as int)
                } else {
                    spec_sat_sub(old(self).spec_viewport().spec_offset() as int, -up)
                },
                old(self).spec_viewport().spec_max_offset(spec_row_count(old(self).spec_snapshot())),
            ),
            ({
                let count = spec_row_count(old(self).spec_snapshot());
                if final(self).spec_viewport().spec_range(count) != old(self).spec_viewport().spec_range(count) {
                    final(self).spec_damage() is All
                } else {
                    final(self).spec_damage() == old(self).spec_damage()
                }
            }),
    {
        let row_count = self.row_count();
        let previous = self.viewport.visible_range(row_count);
        self.viewport.scroll_rows(up, row_count);
        let now = self.viewport.visible_range(row_count);
        if now.0 != previous.0 || now.1 != previous.1 {
            self.text_damage.mark_all();
        }
    }

    /// Where the caret goes on screen.
    pub fn caret_place(&mut self) -> (place: CaretPlace)
        requires
            old(self).wf(),
        ensures
            final(self).wf(),
            final(self).spec_snapshot() == old(self).spec_snapshot(),
            final(self).spec_copy_mode() == old(self).spec_copy_mode(),
            final(self).spec_tab_bar() == old(self).spec_tab_bar(),
            final(self).spec_damage() == old(self).spec_damage(),
            !old(self).spec_snapshot().cursor_visible ==> place == CaretPlace::Hidden
                && final(self).spec_viewport() == old(self).spec_viewport(),
            old(self).spec_snapshot().cursor_visible ==> {
                let count = spec_row_count(old(self).spec_snapshot());
                let range = final(self).spec_viewport().spec_range(count);
                let row = old(self).spec_snapshot().cursor_row;
                &&& final(self).spec_viewport().spec_offset() == spec_min(
                    old(self).spec_viewport().spec_offset() as int,
                    old(self).spec_viewport().spec_max_offset(count),
                )
                &&& final(self).spec_viewport().spec_visible_rows() == old(self).spec_viewport().spec_visible_rows()
                &&& place == if range.0 <= row < range.1 {
                    CaretPlace::At((row - range.0) as usize, old(self).spec_snapshot().cursor_col)
                } else {
                    CaretPlace::Offscreen
                }
            },
    {
        if !self.snapshot.cursor_visible {
            return CaretPlace::Hidden;
        }
        let row_count = self.row_count();
        self.viewport.clamp(row_count);
        let (start, end) = self.viewport.visible_range(row_count);
        let row = self.snapshot.cursor_row;
        if row < start || row >= end {
            return CaretPlace::Offscreen;
        }
        CaretPlace::At(row - start, self.snapshot.cursor_col)
    }
}

} // verus!
