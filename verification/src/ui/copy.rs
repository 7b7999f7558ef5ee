use vstd::prelude::*;
use crate::screen::cell::ScreenSnapshot;
use crate::view::copy_mode::{
    CopyModePosition, CopyModeSelection, CopyModeSelectionKind, CopyModeSnapshot,
};
use crate::ui::movement::{clamp_position, lines_of, move_position, spec_clamp, spec_move};
use crate::ui::selection::{selected_text, spec_selected_text};

verus! {

/// A cursor motion of copy mode.
#[derive(Clone, Copy, Debug, PartialEq, Eq, Structural)]
pub enum CopyModeMove {
    Left,
    Down,
    Up,
    Right,
    StartOfLine,
    EndOfLine,
    NextWord,
    PreviousWord,
    WordEnd,
    FirstLine,
    LastLine,
    PageUp,
    PageDown,
}


/// The state of copy mode: whether it is on, its cursor and its selection.
#[derive(Debug)]
pub struct CopyMode {
    snapshot: CopyModeSnapshot,
}

/// The selection after a toggle of `kind`: a selection of that kind is dropped, any other
/// state starts one of that kind at the cursor.
pub open spec fn spec_toggled(snapshot: CopyModeSnapshot, kind: CopyModeSelectionKind) -> Option<CopyModeSelection> {
    match snapshot.selection {
        Some(selection) => if selection.kind == kind {
            None
        } else {
            Some(CopyModeSelection { anchor: snapshot.cursor, cursor: snapshot.cursor, kind })
        },
        None => Some(CopyModeSelection { anchor: snapshot.cursor, cursor: snapshot.cursor, kind }),
    }
}

/// Toggling the same kind of selection twice, starting without a selection, ends without one.
pub proof fn lemma_toggle_twice_drops_the_selection(snapshot: CopyModeSnapshot, kind: CopyModeSelectionKind)
    requires
        snapshot.selection is None,
    ensures
        spec_toggled(CopyModeSnapshot { selection: spec_toggled(snapshot, kind), ..snapshot }, kind) is None,
        spec_toggled(snapshot, kind) == Some(CopyModeSelection { anchor: snapshot.cursor, cursor: snapshot.cursor, kind }),
{
}

/// Copy mode just turned on over `screen`: the cursor on the terminal cursor, no selection.
pub open spec fn spec_entered(screen: ScreenSnapshot) -> CopyModeSnapshot {
    CopyModeSnapshot {
        active: true,
        cursor: spec_clamp(lines_of(screen), CopyModePosition { row: screen.cursor_row, col: screen.cursor_col }),
        selection: None,
    }
}

/// Copy mode after a cursor motion; a selection follows the cursor from its anchor.
pub open spec fn spec_moved(copy: CopyModeSnapshot, screen: ScreenSnapshot, direction: CopyModeMove) -> CopyModeSnapshot {
    if !copy.active {
        copy
    } else {
        let cursor = spec_move(lines_of(screen), copy.cursor, direction);
        CopyModeSnapshot {
            active: true,
            cursor,
            selection: match copy.selection {
                Some(selection) => Some(CopyModeSelection { cursor, ..selection }),
                None => None,
            },
        }
    }
}

/// Copy mode after a toggle of a `kind` selection.
pub open spec fn spec_with_toggled(copy: CopyModeSnapshot, kind: CopyModeSelectionKind) -> CopyModeSnapshot {
    if !copy.active {
        copy
    } else {
        CopyModeSnapshot { selection: spec_toggled(copy, kind), ..copy }
    }
}

/// What the view shows of copy mode on `screen`: nothing when it is off, else the cursor
/// and the selection's anchor moved back onto the screen.
pub open spec fn spec_shown(copy: CopyModeSnapshot, screen: ScreenSnapshot) -> CopyModeSnapshot {
    if !copy.active {
        CopyModeSnapshot::spec_inactive()
    } else {
        let lines = lines_of(screen);
        let cursor = spec_clamp(lines, copy.cursor);
        CopyModeSnapshot {
            active: true,
            cursor,
            selection: match copy.selection {
                Some(selection) => Some(CopyModeSelection {
                    anchor: spec_clamp(lines, selection.anchor),
                    cursor,
                    kind: selection.kind,
                }),
                None => None,
            },
        }
    }
}

/// Copy mode once what it shows on `screen` has been worked out: it keeps what it showed.
pub open spec fn spec_refreshed(copy: CopyModeSnapshot, screen: ScreenSnapshot) -> CopyModeSnapshot {
    if copy.active { spec_shown(copy, screen) } else { copy }
}

/// The text that copy mode's selection covers on `screen`, if any.
pub open spec fn spec_selection_text(copy: CopyModeSnapshot, screen: ScreenSnapshot) -> Option<Seq<char>> {
    match copy.selection {
        Some(selection) => spec_selected_text(selection, lines_of(screen)),
        None => None,
    }
}

impl CopyMode {
    pub closed spec fn spec_snapshot(&self) -> CopyModeSnapshot {
        self.snapshot
    }

    /// Copy mode off.
    pub fn new() -> (copy_mode: CopyMode)
        ensures
            copy_mode.spec_snapshot() == CopyModeSnapshot::spec_inactive(),
    {
        CopyMode { snapshot: CopyModeSnapshot::inactive() }
    }

    pub fn is_active(&self) -> (active: bool)
        ensures
            active == self.spec_snapshot().active,
    {
        self.snapshot.active
    }

    /// What copy mode holds now.
    pub fn snapshot(&self) -> (snapshot: CopyModeSnapshot)
        ensures
            snapshot == self.spec_snapshot(),
    {
        self.snapshot
    }

    /// Turns copy mode on with its cursor on the terminal cursor and no selection.
    pub fn enter(&mut self, screen: &ScreenSnapshot)
        ensures
            final(self).spec_snapshot() == spec_entered(*screen),
    {
        let cursor = clamp_position(screen, CopyModePosition::new(screen.cursor_row, screen.cursor_col));
        self.snapshot = CopyModeSnapshot { active: true, cursor, selection: None };
    }

    /// Turns copy mode off and drops the selection.
    pub fn exit(&mut self)
        ensures
            final(self).spec_snapshot() == CopyModeSnapshot::spec_inactive(),
    {
        self.snapshot = CopyModeSnapshot::inactive();
    }

    /// Moves the cursor; a selection follows it from its anchor. Nothing happens when copy
    /// mode is off.
    pub fn move_cursor(&mut self, screen: &ScreenSnapshot, direction: CopyModeMove)
        ensures
            final(self).spec_snapshot() == spec_moved(old(self).spec_snapshot(), *screen, direction),
    {
        if !self.snapshot.active {
            return;
        }
        let cursor = move_position(screen, self.snapshot.cursor, direction);
        self.snapshot.cursor = cursor;
        match self.snapshot.selection {
            Some(selection) => {
                self.snapshot.selection = Some(CopyModeSelection { anchor: selection.anchor, cursor, kind: selection.kind });
            },
            None => {},
        }
    }

    fn toggle_selection(&mut self, kind: CopyModeSelectionKind)
        ensures
            final(self).spec_snapshot() == spec_with_toggled(old(self).spec_snapshot(), kind),
    {
        if !self.snapshot.active {
            return;
        }
        let same = match self.snapshot.selection {
            Some(selection) => selection.kind == kind,
            None => false,
        };
        if same {
            self.snapshot.selection = None;
            return;
        }
        self.snapshot.selection = Some(CopyModeSelection {
            anchor: self.snapshot.cursor,
            cursor: self.snapshot.cursor,
            kind,
        });
    }

    /// Starts a cell selection at the cursor, or drops the cell selection there is.
    pub fn toggle_cell_selection(&mut self)
        ensures
            final(self).spec_snapshot() == spec_with_toggled(old(self).spec_snapshot(), CopyModeSelectionKind::Cell),
    {
        self.toggle_selection(CopyModeSelectionKind::Cell);
    }

    /// Starts a line selection at the cursor, or drops the line selection there is.
    pub fn toggle_line_selection(&mut self)
        ensures
            final(self).spec_snapshot() == spec_with_toggled(old(self).spec_snapshot(), CopyModeSelectionKind::Line),
    {
        self.toggle_selection(CopyModeSelectionKind::Line);
    }

    /// The text of the selection, if there is a selection and it covers any text.
    pub fn selected_text(&self, screen: &ScreenSnapshot) -> (text: Option<String>)
        ensures
            match spec_selection_text(self.spec_snapshot(), *screen) {
                Some(t) => text is Some && text.unwrap()@ == t,
                None => text is None,
            },
    {
        match self.snapshot.selection {
            Some(selection) => selected_text(selection, screen),
            None => None,
        }
    }

    /// What the view shows of copy mode on `screen`: the cursor and the selection's anchor
    /// moved back onto the screen, which copy mode keeps.
    pub fn renderer_snapshot(&mut self, screen: &ScreenSnapshot) -> (shown: CopyModeSnapshot)
        ensures
            shown == spec_shown(old(self).spec_snapshot(), *screen),
            final(self).spec_snapshot() == spec_refreshed(old(self).spec_snapshot(), *screen),
    {
        if !self.snapshot.active {
            return CopyModeSnapshot::inactive();
        }
        let cursor = clamp_position(screen, self.snapshot.cursor);
        self.snapshot.cursor = cursor;
        match self.snapshot.selection {
            Some(selection) => {
                let anchor = clamp_position(screen, selection.anchor);
                self.snapshot.selection = Some(CopyModeSelection { anchor, cursor, kind: selection.kind });
            },
            None => {},
        }
        self.snapshot
    }
}

impl Default for CopyMode {
    fn default() -> (copy_mode: CopyMode)
        ensures
            copy_mode.spec_snapshot() == CopyModeSnapshot::spec_inactive(),
    {
        CopyMode::new()
    }
}

} // verus!
