use vstd::prelude::*;
use crate::screen::cell::ScreenSnapshot;
use crate::size::TerminalSize;
use crate::ui::copy::{
    spec_entered, spec_moved, spec_refreshed, spec_selection_text, spec_shown, spec_with_toggled,
    CopyMode,
};
use crate::ui::input::{AppCommand, CopyModeCommand};
use crate::ui::tabs::{spec_after_close, spec_next_index, spec_previous_index, Tabs};
use crate::view::copy_mode::{CopyModeSelectionKind, CopyModeSnapshot};

verus! {

/// Work that the window does after a command, in the order given: the window owns the
/// view, the clipboard, the shells and the event loop, and this library decides.
#[derive(Clone, Debug, PartialEq, Eq)]
pub enum AppAction {
    /// Send these bytes to the active tab's shell.
    SendToTerminal(Vec<u8>),
    /// Show these copy-mode highlights.
    ShowCopyMode(CopyModeSnapshot),
    /// Set the window title to `window_title` of whether copy mode is on.
    UpdateWindowTitle { copy_mode_active: bool },
    /// Show the tab bar of the tabs as they are now.
    RefreshTabBar,
    /// Show the active tab's screen scrolled to the bottom, with copy mode over it.
    ShowActiveTerminalAtBottom,
    /// Open a tab of this size running the configured shell, and make it active.
    OpenTab(TerminalSize),
    /// Stop: the last tab is gone.
    Exit,
    /// Put this text on the clipboard.
    CopyToClipboard(String),
    /// Send the clipboard's text to the active tab's shell.
    PasteFromClipboard,
    /// Resize every tab's terminal.
    ResizeTabs(TerminalSize),
    /// Fit the view to the window and show the active tab's screen in it, with copy mode over it.
    ResizeView { window_width: u32, window_height: u32 },
}

/// An action as plain values.
pub enum ActionView {
    SendToTerminal(Seq<u8>),
    ShowCopyMode(CopyModeSnapshot),
    UpdateWindowTitle(bool),
    RefreshTabBar,
    ShowActiveTerminalAtBottom,
    OpenTab(TerminalSize),
    Exit,
    CopyToClipboard(Seq<char>),
    PasteFromClipboard,
    ResizeTabs(TerminalSize),
    ResizeView(u32, u32),
}

impl View for AppAction {
    type V = ActionView;

    open spec fn view(&self) -> ActionView {
        match self {
            AppAction::SendToTerminal(bytes) => ActionView::SendToTerminal(bytes@),
            AppAction::ShowCopyMode(copy) => ActionView::ShowCopyMode(*copy),
            AppAction::UpdateWindowTitle { copy_mode_active } => ActionView::UpdateWindowTitle(*copy_mode_active),
            AppAction::RefreshTabBar => ActionView::RefreshTabBar,
            AppAction::ShowActiveTerminalAtBottom => ActionView::ShowActiveTerminalAtBottom,
            AppAction::OpenTab(size) => ActionView::OpenTab(*size),
            AppAction::Exit => ActionView::Exit,
            AppAction::CopyToClipboard(text) => ActionView::CopyToClipboard(text@),
            AppAction::PasteFromClipboard => ActionView::PasteFromClipboard,
            AppAction::ResizeTabs(size) => ActionView::ResizeTabs(*size),
            AppAction::ResizeView { window_width, window_height } => ActionView::ResizeView(*window_width, *window_height),
        }
    }
}

/// The actions as plain values.
pub open spec fn actions_view(actions: Seq<AppAction>) -> Seq<ActionView> {
    actions.map_values(|a: AppAction| a@)
}

/// The window's title: it says when copy mode is on.
pub open spec fn spec_window_title(copy_mode_active: bool) -> Seq<char> {
    if copy_mode_active { "Solito - Copy Mode"@ } else { "Solito"@ }
}

/// The window's title: it says when copy mode is on.
pub fn window_title(copy_mode_active: bool) -> (title: String)
    ensures
        title@ == spec_window_title(copy_mode_active),
{
    if copy_mode_active {
        let title = "Solito - Copy Mode".to_owned();
        proof { reveal_strlit("Solito - Copy Mode"); }
        title
    } else {
        let title = "Solito".to_owned();
        proof { reveal_strlit("Solito"); }
        title
    }
}

/// Copy mode after leaving it: off, whatever it was.
pub open spec fn spec_left(copy: CopyModeSnapshot) -> CopyModeSnapshot {
    if copy.active { CopyModeSnapshot::spec_inactive() } else { copy }
}

/// Leaving copy mode: nothing when it is off; else the view drops its highlights (when
/// there is a view) and the title changes back.
pub open spec fn spec_leave_actions(copy: CopyModeSnapshot, has_view: bool) -> Seq<ActionView> {
    if !copy.active {
        seq![]
    } else if has_view {
        seq![ActionView::ShowCopyMode(CopyModeSnapshot::spec_inactive()), ActionView::UpdateWindowTitle(false)]
    } else {
        seq![ActionView::UpdateWindowTitle(false)]
    }
}

/// The view catches up with copy mode on `screen`, when there is a view.
pub open spec fn spec_refresh_actions(copy: CopyModeSnapshot, screen: ScreenSnapshot, has_view: bool) -> Seq<ActionView> {
    if has_view { seq![ActionView::ShowCopyMode(spec_shown(copy, screen))] } else { seq![] }
}

/// Copy mode after the view caught up with it, when there is a view.
pub open spec fn spec_after_refresh(copy: CopyModeSnapshot, screen: ScreenSnapshot, has_view: bool) -> CopyModeSnapshot {
    if has_view { spec_refreshed(copy, screen) } else { copy }
}

/// The clipboard gets the selected text, if the selection covers any.
pub open spec fn spec_copy_actions(copy: CopyModeSnapshot, screen: ScreenSnapshot) -> Seq<ActionView> {
    match spec_selection_text(copy, screen) {
        Some(text) => seq![ActionView::CopyToClipboard(text)],
        None => seq![],
    }
}

/// Copy mode after a copy-mode command over `screen`.
pub open spec fn spec_copy_command_state(copy: CopyModeSnapshot, screen: ScreenSnapshot, command: CopyModeCommand, has_view: bool) -> CopyModeSnapshot {
    match command {
        CopyModeCommand::Move(direction) => spec_after_refresh(spec_moved(copy, screen, direction), screen, has_view),
        CopyModeCommand::ToggleCellSelection => spec_after_refresh(
            spec_with_toggled(copy, CopyModeSelectionKind::Cell),
            screen,
            has_view,
        ),
        CopyModeCommand::ToggleLineSelection => spec_after_refresh(
            spec_with_toggled(copy, CopyModeSelectionKind::Line),
            screen,
            has_view,
        ),
        CopyModeCommand::CopyAndExit => spec_left(copy),
        CopyModeCommand::Exit => spec_left(copy),
    }
}

/// The actions of a copy-mode command over `screen`.
pub open spec fn spec_copy_command_actions(copy: CopyModeSnapshot, screen: ScreenSnapshot, command: CopyModeCommand, has_view: bool) -> Seq<ActionView> {
    match command {
        CopyModeCommand::Move(direction) => spec_refresh_actions(spec_moved(copy, screen, direction), screen, has_view),
        CopyModeCommand::ToggleCellSelection => spec_refresh_actions(
            spec_with_toggled(copy, CopyModeSelectionKind::Cell),
            screen,
            has_view,
        ),
        CopyModeCommand::ToggleLineSelection => spec_refresh_actions(
            spec_with_toggled(copy, CopyModeSelectionKind::Line),
            screen,
            has_view,
        ),
        CopyModeCommand::CopyAndExit => spec_copy_actions(copy, screen) + spec_leave_actions(copy, has_view),
        CopyModeCommand::Exit => spec_leave_actions(copy, has_view),
    }
}

/// The tab bar and the active tab's screen are shown again.
pub open spec fn spec_show_tabs() -> Seq<ActionView> {
    seq![ActionView::RefreshTabBar, ActionView::ShowActiveTerminalAtBottom]
}

/// Leaves copy mode, telling the window what to show; `has_view` says whether there is a view.
fn leave_copy_mode(copy_mode: &mut CopyMode, has_view: bool, actions: &mut Vec<AppAction>)
    ensures
        final(copy_mode).spec_snapshot() == spec_left(old(copy_mode).spec_snapshot()),
        actions_view(final(actions)@) == actions_view(old(actions)@) + spec_leave_actions(old(copy_mode).spec_snapshot(), has_view),
{
    proof { lemma_view_push_all(old(actions)@); }
    if !copy_mode.is_active() {
        assert(actions_view(actions@) =~= actions_view(old(actions)@) + seq![]);
        return;
    }
    copy_mode.exit();
    let ghost before = actions@;
    if has_view {
        actions.push(AppAction::ShowCopyMode(CopyModeSnapshot::inactive()));
    }
    actions.push(AppAction::UpdateWindowTitle { copy_mode_active: false });
    proof {
        lemma_view_push_all(before);
        if has_view {
            lemma_view_push_all(before.push(AppAction::ShowCopyMode(CopyModeSnapshot::spec_inactive())));
        }
    }
    assert(actions_view(actions@) =~= actions_view(before) + spec_leave_actions(old(copy_mode).spec_snapshot(), has_view));
}

/// The view catches up with copy mode on `screen`, when there is a view.
fn refresh_copy_mode(copy_mode: &mut CopyMode, screen: &ScreenSnapshot, has_view: bool, actions: &mut Vec<AppAction>)
    ensures
        final(copy_mode).spec_snapshot() == spec_after_refresh(old(copy_mode).spec_snapshot(), *screen, has_view),
        actions_view(final(actions)@) == actions_view(old(actions)@) + spec_refresh_actions(old(copy_mode).spec_snapshot(), *screen, has_view),
{
    let ghost before = actions@;
    proof { lemma_view_push_all(before); }
    if has_view {
        let shown = copy_mode.renderer_snapshot(screen);
        actions.push(AppAction::ShowCopyMode(shown));
    }
    assert(actions_view(actions@) =~= actions_view(before) + spec_refresh_actions(old(copy_mode).spec_snapshot(), *screen, has_view));
}

/// Pushing onto the actions pushes onto their view.
proof fn lemma_view_push_all(actions: Seq<AppAction>)
    ensures
        forall|a: AppAction| #[trigger] actions_view(actions.push(a)) == actions_view(actions).push(a@),
{
    assert forall|a: AppAction| #[trigger] actions_view(actions.push(a)) == actions_view(actions).push(a@) by {
        assert(actions_view(actions.push(a)) =~= actions_view(actions).push(a@));
    }
}

/// A copy-mode command over the active tab's `screen`.
fn handle_copy_mode_command(
    copy_mode: &mut CopyMode,
    screen: &ScreenSnapshot,
    command: CopyModeCommand,
    has_view: bool,
    actions: &mut Vec<AppAction>,
)
    ensures
        final(copy_mode).spec_snapshot() == spec_copy_command_state(old(copy_mode).spec_snapshot(), *screen, command, has_view),
        actions_view(final(actions)@) == actions_view(old(actions)@) + spec_copy_command_actions(
            old(copy_mode).spec_snapshot(),
            *screen,
            command,
            has_view,
        ),
{
    let ghost start = actions@;
    match command {
        CopyModeCommand::Move(direction) => {
            copy_mode.move_cursor(screen, direction);
            refresh_copy_mode(copy_mode, screen, has_view, actions);
        },
        CopyModeCommand::ToggleCellSelection => {
            copy_mode.toggle_cell_selection();
            refresh_copy_mode(copy_mode, screen, has_view, actions);
        },
        CopyModeCommand::ToggleLineSelection => {
            copy_mode.toggle_line_selection();
            refresh_copy_mode(copy_mode, screen, has_view, actions);
        },
        CopyModeCommand::CopyAndExit => {
            let text = copy_mode.selected_text(screen);
            proof { lemma_view_push_all(start); }
            match text {
                Some(text) => actions.push(AppAction::CopyToClipboard(text)),
                None => {},
            }
            let ghost copied = actions@;
            assert(actions_view(copied) =~= actions_view(start) + spec_copy_actions(old(copy_mode).spec_snapshot(), *screen));
            leave_copy_mode(copy_mode, has_view, actions);
            assert(actions_view(actions@) =~= actions_view(start) + (spec_copy_actions(
                old(copy_mode).spec_snapshot(),
                *screen,
            ) + spec_leave_actions(old(copy_mode).spec_snapshot(), has_view)));
        },
        CopyModeCommand::Exit => {
            leave_copy_mode(copy_mode, has_view, actions);
        },
    }
}

/// The actions of a command, given copy mode, the number of tabs and the active tab's
/// screen before it, and the size of the view (`None` when there is no view).
pub open spec fn spec_command_actions(
    copy: CopyModeSnapshot,
    tab_count: int,
    screen: Option<ScreenSnapshot>,
    view_size: Option<TerminalSize>,
    command: AppCommand,
) -> Seq<ActionView> {
    let has_view = view_size is Some;
    match command {
        AppCommand::Noop => seq![],
        AppCommand::SendTerminalInput(bytes) => seq![ActionView::SendToTerminal(bytes@)],
        AppCommand::EnterCopyMode => match screen {
            Some(s) => spec_refresh_actions(spec_entered(s), s, has_view) + seq![ActionView::UpdateWindowTitle(true)],
            None => seq![],
        },
        AppCommand::CopyMode(c) => match screen {
            Some(s) => spec_copy_command_actions(copy, s, c, has_view),
            None => seq![],
        },
        AppCommand::NewTab => spec_leave_actions(copy, has_view) + match view_size {
            Some(size) => seq![ActionView::OpenTab(size)] + spec_show_tabs(),
            None => seq![],
        },
        AppCommand::CloseTab => spec_leave_actions(copy, has_view) + if tab_count == 0 {
            seq![]
        } else if tab_count == 1 {
            seq![ActionView::Exit]
        } else {
            spec_show_tabs()
        },
        AppCommand::NextTab | AppCommand::PreviousTab => spec_leave_actions(copy, has_view) + if tab_count > 1 {
            spec_show_tabs()
        } else {
            seq![]
        },
        AppCommand::CopySelection => match screen {
            Some(s) => spec_copy_actions(copy, s),
            None => seq![],
        },
        AppCommand::PasteFromClipboard => seq![ActionView::PasteFromClipboard],
        AppCommand::Resize { window_width, window_height, terminal_size } => seq![ActionView::ResizeTabs(terminal_size)]
            + if has_view && tab_count > 0 {
            seq![ActionView::ResizeView(window_width, window_height)]
        } else {
            seq![]
        },
    }
}

/// Copy mode after a command, given the active tab's screen before it.
pub open spec fn spec_command_copy_mode(
    copy: CopyModeSnapshot,
    screen: Option<ScreenSnapshot>,
    view_size: Option<TerminalSize>,
    command: AppCommand,
) -> CopyModeSnapshot {
    let has_view = view_size is Some;
    match command {
        AppCommand::EnterCopyMode => match screen {
            Some(s) => spec_after_refresh(spec_entered(s), s, has_view),
            None => copy,
        },
        AppCommand::CopyMode(c) => match screen {
            Some(s) => spec_copy_command_state(copy, s, c, has_view),
            None => copy,
        },
        AppCommand::NewTab | AppCommand::CloseTab | AppCommand::NextTab | AppCommand::PreviousTab => spec_left(copy),
        _ => copy,
    }
}

/// Carries out a command of the window on the tabs and copy mode, and returns what the
/// window must do next, in order. `screen` is what the active tab shows (`None` when there
/// is no tab) and `view_size` the size in cells that the view offers (`None` when there is
/// no view yet). Tab commands leave copy mode first; closing the last tab exits.
pub fn handle_command<T>(
    tabs: &mut Tabs<T>,
    copy_mode: &mut CopyMode,
    screen: Option<&ScreenSnapshot>,
    view_size: Option<TerminalSize>,
    command: AppCommand,
) -> (actions: Vec<AppAction>)
    requires
        old(tabs).wf(),
    ensures
        final(tabs).wf(),
        actions_view(actions@) == spec_command_actions(
            old(copy_mode).spec_snapshot(),
            old(tabs).spec_tabs().len() as int,
            match screen { Some(s) => Some(*s), None => None },
            view_size,
            command,
        ),
        final(copy_mode).spec_snapshot() == spec_command_copy_mode(
            old(copy_mode).spec_snapshot(),
            match screen { Some(s) => Some(*s), None => None },
            view_size,
            command,
        ),
        match command {
            AppCommand::CloseTab => {
                let count = old(tabs).spec_tabs().len();
                &&& count > 0 ==> final(tabs).spec_tabs() == old(tabs).spec_tabs().remove(old(tabs).spec_active())
                    && final(tabs).spec_active() == spec_after_close(old(tabs).spec_active(), count - 1)
                &&& count == 0 ==> final(tabs).spec_tabs() == old(tabs).spec_tabs()
                    && final(tabs).spec_active() == old(tabs).spec_active()
            },
            AppCommand::NextTab => {
                &&& final(tabs).spec_tabs() == old(tabs).spec_tabs()
                &&& final(tabs).spec_active() == if old(tabs).spec_tabs().len() > 1 {
                    spec_next_index(old(tabs).spec_active(), old(tabs).spec_tabs().len() as int)
                } else {
                    old(tabs).spec_active()
                }
            },
            AppCommand::PreviousTab => {
                &&& final(tabs).spec_tabs() == old(tabs).spec_tabs()
                &&& final(tabs).spec_active() == if old(tabs).spec_tabs().len() > 1 {
                    spec_previous_index(old(tabs).spec_active(), old(tabs).spec_tabs().len() as int)
                } else {
                    old(tabs).spec_active()
                }
            },
            _ => *final(tabs) == *old(tabs),
        },
{
    let has_view = view_size.is_some();
    let mut actions: Vec<AppAction> = Vec::new();
    proof { lemma_view_push_all(actions@); }
    assert(actions_view(actions@) =~= seq![]);
    let ghost copy = copy_mode.spec_snapshot();
    match command {
        AppCommand::Noop => {},
        AppCommand::SendTerminalInput(bytes) => {
            actions.push(AppAction::SendToTerminal(bytes));
            assert(actions_view(actions@) =~= seq![ActionView::SendToTerminal(bytes@)]);
        },
        AppCommand::EnterCopyMode => {
            match screen {
                Some(s) => {
                    copy_mode.enter(s);
                    refresh_copy_mode(copy_mode, s, has_view, &mut actions);
                    let ghost shown = actions@;
                    proof { lemma_view_push_all(shown); }
                    actions.push(AppAction::UpdateWindowTitle { copy_mode_active: true });
                },
                None => {},
            }
        },
        AppCommand::CopyMode(c) => {
            match screen {
                Some(s) => {
                    handle_copy_mode_command(copy_mode, s, c, has_view, &mut actions);
                    assert(actions_view(actions@) =~= spec_copy_command_actions(copy, *s, c, has_view));
                },
                None => {},
            }
        },
        AppCommand::NewTab => {
            leave_copy_mode(copy_mode, has_view, &mut actions);
            let ghost left = actions@;
            match view_size {
                Some(size) => {
                    proof { lemma_view_push_all(left); }
                    actions.push(AppAction::OpenTab(size));
                    proof { lemma_view_push_all(actions@); }
                    actions.push(AppAction::RefreshTabBar);
                    proof { lemma_view_push_all(actions@); }
                    actions.push(AppAction::ShowActiveTerminalAtBottom);
                    assert(actions_view(actions@) =~= actions_view(left) + (seq![ActionView::OpenTab(size)] + spec_show_tabs()));
                },
                None => {
                    assert(actions_view(actions@) =~= actions_view(left) + seq![]);
                },
            }
        },
        AppCommand::CloseTab => {
            leave_copy_mode(copy_mode, has_view, &mut actions);
            let ghost left = actions@;
            proof { lemma_view_push_all(left); }
            if tabs.close_active() {
                if tabs.is_empty() {
                    actions.push(AppAction::Exit);
                    assert(actions_view(actions@) =~= actions_view(left) + seq![ActionView::Exit]);
                } else {
                    actions.push(AppAction::RefreshTabBar);
                    proof { lemma_view_push_all(actions@); }
                    actions.push(AppAction::ShowActiveTerminalAtBottom);
                    assert(actions_view(actions@) =~= actions_view(left) + spec_show_tabs());
                }
            } else {
                assert(actions_view(actions@) =~= actions_view(left) + seq![]);
            }
        },
        AppCommand::NextTab => {
            leave_copy_mode(copy_mode, has_view, &mut actions);
            let ghost left = actions@;
            proof { lemma_view_push_all(left); }
            if tabs.activate_next() {
                actions.push(AppAction::RefreshTabBar);
                proof { lemma_view_push_all(actions@); }
                actions.push(AppAction::ShowActiveTerminalAtBottom);
                assert(actions_view(actions@) =~= actions_view(left) + spec_show_tabs());
            } else {
                assert(actions_view(actions@) =~= actions_view(left) + seq![]);
            }
        },
        AppCommand::PreviousTab => {
            leave_copy_mode(copy_mode, has_view, &mut actions);
            let ghost left = actions@;
            proof { lemma_view_push_all(left); }
            if tabs.activate_previous() {
                actions.push(AppAction::RefreshTabBar);
                proof { lemma_view_push_all(actions@); }
                actions.push(AppAction::ShowActiveTerminalAtBottom);
                assert(actions_view(actions@) =~= actions_view(left) + spec_show_tabs());
            } else {
                assert(actions_view(actions@) =~= actions_view(left) + seq![]);
            }
        },
        AppCommand::CopySelection => {
            match screen {
                Some(s) => {
                    match copy_mode.selected_text(s) {
                        Some(text) => {
                            actions.push(AppAction::CopyToClipboard(text));
                            assert(actions_view(actions@) =~= spec_copy_actions(copy, *s));
                        },
                        None => {},
                    }
                },
                None => {},
            }
        },
        AppCommand::PasteFromClipboard => {
            actions.push(AppAction::PasteFromClipboard);
            assert(actions_view(actions@) =~= seq![ActionView::PasteFromClipboard]);
        },
        AppCommand::Resize { window_width, window_height, terminal_size } => {
            actions.push(AppAction::ResizeTabs(terminal_size));
            let ghost resized = actions@;
            proof { lemma_view_push_all(resized); }
            if has_view && !tabs.is_empty() {
                actions.push(AppAction::ResizeView { window_width, window_height });
                assert(actions_view(actions@) =~= seq![ActionView::ResizeTabs(terminal_size)]
                    + seq![ActionView::ResizeView(window_width, window_height)]);
            } else {
                assert(actions_view(actions@) =~= seq![ActionView::ResizeTabs(terminal_size)] + seq![]);
            }
        },
    }
    actions
}

} // verus!
