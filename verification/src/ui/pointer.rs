use vstd::prelude::*;
use crate::mouse::{spec_encode, MouseMode};
use crate::ui::input::Modifiers;

verus! {

/// One mouse report for the shell: a button code, whether the button came up, and the cell.
#[derive(Clone, Copy, Debug, PartialEq, Eq, Structural)]
pub struct MouseReport {
    pub code: u8,
    pub released: bool,
    pub col: usize,
    pub row: usize,
}

/// What the window remembers of the mouse between events: the last cell reported, which
/// of the left, middle and right buttons are held down in a report, and for which tab,
/// tracking mode and copy-mode state that holds.
#[derive(Clone, Copy, Debug)]
pub struct MouseTracker {
    cell: Option<(usize, usize)>,
    buttons: [bool; 3],
    context: Option<(usize, MouseMode, bool)>,
}

/// The first held button, or 3 when none is.
pub open spec fn spec_held_button(buttons: Seq<bool>) -> u8 {
    if buttons[0] { 0 } else if buttons[1] { 1 } else if buttons[2] { 2 } else { 3 }
}

impl MouseTracker {
    pub closed spec fn spec_cell(&self) -> Option<(usize, usize)> {
        self.cell
    }

    pub closed spec fn spec_buttons(&self) -> Seq<bool> {
        self.buttons@
    }

    pub closed spec fn spec_context(&self) -> Option<(usize, MouseMode, bool)> {
        self.context
    }

    /// Nothing remembered yet.
    pub fn new() -> (tracker: MouseTracker)
        ensures
            tracker.spec_cell() is None,
            tracker.spec_buttons() == seq![false, false, false],
            tracker.spec_context() is None,
    {
        let tracker = MouseTracker { cell: None, buttons: [false, false, false], context: None };
        assert(tracker.buttons@ =~= seq![false, false, false]);
        tracker
    }

    /// The mode that reports use: none in copy mode, else the active tab's. When the tab, its
    /// mode or copy mode changed since the last event, what was remembered is forgotten;
    /// the second value says so.
    pub fn mouse_mode(&mut self, active_index: usize, mode: MouseMode, copy_mode_active: bool) -> (result: (MouseMode, bool))
        ensures
            result.0 == if copy_mode_active { MouseMode { tracking: 0, sgr: false } } else { mode },
            result.1 == (old(self).spec_context() != Some((active_index, mode, copy_mode_active))),
            final(self).spec_context() == Some((active_index, mode, copy_mode_active)),
            result.1 ==> final(self).spec_cell() is None && final(self).spec_buttons() == seq![false, false, false],
            !result.1 ==> final(self).spec_cell() == old(self).spec_cell() && final(self).spec_buttons() == old(self).spec_buttons(),
    {
        let same = match self.context {
            Some((index, known, copy)) => index == active_index && known == mode && copy == copy_mode_active,
            None => false,
        };
        if !same {
            self.cell = None;
            self.buttons = [false, false, false];
            self.context = Some((active_index, mode, copy_mode_active));
            assert(self.buttons@ =~= seq![false, false, false]);
        }
        let effective = if copy_mode_active { MouseMode { tracking: 0, sgr: false } } else { mode };
        (effective, !same)
    }

    /// The pointer is over `cell` now, if over the grid: a move to another cell is reported
    /// as motion with the first held button.
    pub fn motion(&mut self, cell: Option<(usize, usize)>) -> (report: Option<MouseReport>)
        ensures
            final(self).spec_buttons() == old(self).spec_buttons(),
            final(self).spec_context() == old(self).spec_context(),
            match cell {
                Some((col, row)) => if cell != old(self).spec_cell() {
                    &&& report == Some(MouseReport {
                        code: (spec_held_button(old(self).spec_buttons()) + 32) as u8,
                        released: false,
                        col,
                        row,
                    })
                    &&& final(self).spec_cell() == cell
                } else {
                    report is None && final(self).spec_cell() == old(self).spec_cell()
                },
                None => report is None && final(self).spec_cell() == old(self).spec_cell(),
            },
    {
        match cell {
            Some((col, row)) => {
                let same = match self.cell {
                    Some((c, r)) => c == col && r == row,
                    None => false,
                };
                if same {
                    return None;
                }
                let button: u8 = if self.buttons[0] {
                    0
                } else if self.buttons[1] {
                    1
                } else if self.buttons[2] {
                    2
                } else {
                    3
                };
                self.cell = Some((col, row));
                Some(MouseReport { code: button + 32, released: false, col, row })
            },
            None => None,
        }
    }

    /// Button `button` (0 left, 1 middle, 2 right) went down or came up with the pointer
    /// over `cell`, if over the grid. A release is reported at the last cell when the
    /// pointer left the grid, and only for a press that was reported.
    pub fn button(&mut self, mode: MouseMode, button: usize, released: bool, cell: Option<(usize, usize)>) -> (report: Option<MouseReport>)
        requires
            button < 3,
        ensures
            final(self).spec_context() == old(self).spec_context(),
            released && !old(self).spec_buttons()[button as int] ==> report is None && *final(self) == *old(self),
            !(released && !old(self).spec_buttons()[button as int]) ==> {
                let at = match cell {
                    Some(c) => Some(c),
                    None => if released { old(self).spec_cell() } else { None },
                };
                &&& final(self).spec_buttons() == old(self).spec_buttons().update(
                    button as int,
                    !released && at is Some && mode.tracking != 0,
                )
                &&& match at {
                    Some((col, row)) => report == Some(MouseReport { code: button as u8, released, col, row })
                        && final(self).spec_cell() == at,
                    None => report is None && final(self).spec_cell() == old(self).spec_cell(),
                }
            },
    {
        if released && !self.buttons[button] {
            return None;
        }
        let at = match cell {
            Some(c) => Some(c),
            None => if released { self.cell } else { None },
        };
        let held = !released && at.is_some() && mode.tracking != 0;
        self.buttons[button] = held;
        match at {
            Some((col, row)) => {
                self.cell = Some((col, row));
                Some(MouseReport { code: button as u8, released, col, row })
            },
            None => None,
        }
    }
}

/// The bytes of a report with the held modifiers added to its code.
pub fn report_bytes(mode: MouseMode, report: MouseReport, modifiers: Modifiers) -> (bytes: Option<Vec<u8>>)
    ensures
        match spec_encode(mode, report.code | modifiers.mouse_bits_spec(), report.released, report.col as nat, report.row as nat) {
            Some(b) => bytes is Some && bytes.unwrap()@ == b,
            None => bytes is None,
        },
{
    mode.encode(report.code | modifiers.mouse_bits(), report.released, report.col, report.row)
}

} // verus!
