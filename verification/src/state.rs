//! A terminal fed by a shell's byte stream: the `vte` parser decodes the stream and the
//! screen applies what it reports.
use vstd::prelude::*;
use vte::{Params, Parser, Perform};
use crate::mouse::MouseMode;
use crate::screen::cell::{ScreenSnapshot};
use crate::screen::buffer::{spec_is_fresh, spec_lines_view};
use crate::screen::control::{spec_csi, spec_esc, spec_groups, spec_osc, CsiMessage, OscMessage};
use crate::screen::editor::{
    did_apply_csi, did_apply_esc, did_apply_execute, did_apply_osc, did_limit_history, did_put_char,
    did_resize, Screen,
};
use crate::size::TerminalSize;

verus! {

#[verifier::external_type_specification]
#[verifier::external_body]
pub struct ExVtParser<const OSC_RAW_BUF_SIZE: usize>(Parser<OSC_RAW_BUF_SIZE>);

#[verifier::external_type_specification]
#[verifier::external_body]
pub struct ExVtParams(Params);

/// The most bytes of output handed to the parser at once; the history is trimmed after each.
pub const OUTPUT_CHUNK: usize = 16384;

/// What the parser reports of the byte stream, in the order it reports it.
#[derive(Debug)]
pub enum VtEvent {
    /// A character to print.
    Print(char),
    /// A C0 control.
    Execute(u8),
    /// A CSI sequence: its parameter groups, intermediate bytes, whether it overflowed, and
    /// its final character.
    Csi { params: Vec<Vec<u16>>, intermediates: Vec<u8>, ignore: bool, action: char },
    /// An ESC sequence: its intermediate bytes, whether it overflowed, and its final byte.
    Esc { intermediates: Vec<u8>, ignore: bool, byte: u8 },
    /// An OSC sequence: its parameters.
    Osc(Vec<Vec<u8>>),
}

/// What the parser's reports are gathered in while it reads a chunk.
struct EventCollector {
    events: Vec<VtEvent>,
}

impl Perform for EventCollector {
    #[verifier::external_body]
    fn print(&mut self, c: char) {
        self.events.push(VtEvent::Print(c));
    }

    #[verifier::external_body]
    fn execute(&mut self, byte: u8) {
        self.events.push(VtEvent::Execute(byte));
    }

    #[verifier::external_body]
    fn csi_dispatch(&mut self, params: &Params, intermediates: &[u8], ignore: bool, action: char) {
        let params: Vec<Vec<u16>> = params.iter().map(|group| group.to_vec()).collect();
        self.events.push(VtEvent::Csi { params, intermediates: intermediates.to_vec(), ignore, action });
    }

    #[verifier::external_body]
    fn esc_dispatch(&mut self, intermediates: &[u8], ignore: bool, byte: u8) {
        self.events.push(VtEvent::Esc { intermediates: intermediates.to_vec(), ignore, byte });
    }

    #[verifier::external_body]
    fn osc_dispatch(&mut self, params: &[&[u8]], _bell_terminated: bool) {
        self.events.push(VtEvent::Osc(params.iter().map(|param| param.to_vec()).collect()));
    }
}

/// A parser in its ground state. Calls `vte::Parser::new`; nothing is stated of the
/// parser, whose state is its own.
#[verifier::external_body]
fn new_parser() -> Parser {
    Parser::new()
}

/// Feeds `bytes` to the parser and returns what it reports, in order.
///
/// Calls `vte::Parser::advance` with a collector of its reports. What comes back depends
/// as well on what the parser kept of earlier bytes (an unfinished sequence or character),
/// so nothing is stated of it.
#[verifier::external_body]
fn parse(parser: &mut Parser, bytes: &[u8]) -> Vec<VtEvent> {
    let mut collector = EventCollector { events: Vec::new() };
    parser.advance(&mut collector, bytes);
    collector.events
}

/// What one report of the parser does to the screen.
pub open spec fn did_apply_event(before: Screen, after: Screen, event: VtEvent) -> bool {
    match event {
        VtEvent::Print(c) => did_put_char(before, after, c),
        VtEvent::Execute(byte) => did_apply_execute(before, after, byte),
        VtEvent::Csi { params, intermediates, ignore, action } => exists|message: CsiMessage|
            #[trigger] spec_csi(spec_groups(params@), intermediates@, ignore, action, message)
                && did_apply_csi(before, after, message),
        VtEvent::Esc { intermediates, ignore, byte } => did_apply_esc(before, after, spec_esc(intermediates@, ignore, byte)),
        VtEvent::Osc(params) => exists|message: OscMessage| spec_osc(params@.map_values(|p: Vec<u8>| p@), message)
            && #[trigger] did_apply_osc(before, after, message),
    }
}

/// `steps` runs from `before` to `after`, each screen the one before with the next of
/// `events` applied.
pub open spec fn is_event_chain(steps: Seq<Screen>, before: Screen, after: Screen, events: Seq<VtEvent>) -> bool {
    &&& steps.len() == events.len() + 1
    &&& steps[0] == before
    &&& steps[events.len() as int] == after
    &&& forall|i: int| 0 <= i < events.len() ==> #[trigger] did_apply_event(steps[i], steps[i + 1], events[i])
}

/// The screen after each of `events` in turn.
pub open spec fn did_apply_events(before: Screen, after: Screen, events: Seq<VtEvent>) -> bool {
    exists|steps: Seq<Screen>| #[trigger] is_event_chain(steps, before, after, events)
}

/// Applies the parser's reports to the screen, in order.
pub fn apply_events(screen: &mut Screen, events: &Vec<VtEvent>)
    requires
        old(screen).wf(),
    ensures
        final(screen).wf(),
        did_apply_events(*old(screen), *final(screen), events@),
{
    let ghost mut steps: Seq<Screen> = seq![*screen];
    let mut i: usize = 0;
    while i < events.len()
        invariant
            screen.wf(),
            i <= events@.len(),
            is_event_chain(steps, *old(screen), *screen, events@.take(i as int)),
        decreases events@.len() - i,
    {
        let ghost before = *screen;
        match &events[i] {
            VtEvent::Print(c) => screen.print(*c),
            VtEvent::Execute(byte) => screen.execute(*byte),
            VtEvent::Csi { params, intermediates, ignore, action } => {
                screen.csi_dispatch(params, intermediates.as_slice(), *ignore, *action)
            },
            VtEvent::Esc { intermediates, ignore, byte } => screen.esc_dispatch(intermediates.as_slice(), *ignore, *byte),
            VtEvent::Osc(params) => screen.osc_dispatch(params),
        }
        proof {
            assert(did_apply_event(before, *screen, events@[i as int]));
            let taken = events@.take(i as int);
            let longer = events@.take(i + 1);
            let old_steps = steps;
            steps = steps.push(*screen);
            assert forall|j: int| 0 <= j < longer.len() implies #[trigger] did_apply_event(steps[j], steps[j + 1], longer[j]) by {
                if j < i {
                    assert(longer[j] == taken[j]);
                    assert(steps[j] == old_steps[j] && steps[j + 1] == old_steps[j + 1]);
                }
            }
        }
        i = i + 1;
    }
    proof {
        assert(events@.take(events@.len() as int) =~= events@);
    }
}

/// How many chunks of at most `OUTPUT_CHUNK` bytes `len` bytes make.
pub open spec fn spec_chunk_count(len: int) -> nat
    decreases len,
{
    if len <= 0 {
        0
    } else if len <= OUTPUT_CHUNK {
        1
    } else {
        1 + spec_chunk_count(len - OUTPUT_CHUNK)
    }
}

/// `steps` runs from `before` to `after` over `count` chunks of output: for each, the
/// parser's reports `events[k]` are applied, reaching `reported[k]`, and then the history
/// is trimmed.
pub open spec fn is_output_chain(
    steps: Seq<Screen>,
    reported: Seq<Screen>,
    events: Seq<Seq<VtEvent>>,
    before: Screen,
    after: Screen,
    count: nat,
) -> bool {
    &&& steps.len() == count + 1
    &&& reported.len() == count
    &&& events.len() == count
    &&& steps[0] == before
    &&& steps[count as int] == after
    &&& forall|k: int| 0 <= k < count ==> #[trigger] did_apply_events(steps[k], reported[k], events[k])
        && did_limit_history(reported[k], steps[k + 1])
}

/// A shell's output of `len` bytes applied chunk by chunk: each chunk's reports, then a trim
/// of the history.
pub open spec fn did_apply_output(before: Screen, after: Screen, len: int) -> bool {
    exists|steps: Seq<Screen>, reported: Seq<Screen>, events: Seq<Seq<VtEvent>>|
        #[trigger] is_output_chain(steps, reported, events, before, after, spec_chunk_count(len))
}

/// A screen fed by the byte stream of a shell.
pub struct TerminalState {
    parser: Parser,
    screen: Screen,
}

impl TerminalState {
    /// The screen.
    pub closed spec fn spec_screen(&self) -> Screen {
        self.screen
    }

    pub open spec fn wf(&self) -> bool {
        self.spec_screen().wf()
    }

    /// A parser in its ground state and an empty screen of `size` (a zero dimension counts as one).
    pub fn new(size: TerminalSize) -> (state: TerminalState)
        ensures
            state.wf(),
            spec_is_fresh(state.spec_screen().buf(), size.spec_at_least_one().cols, size.spec_at_least_one().rows),
            state.spec_screen().primary_screen is None,
            state.spec_screen().last_printed is None,
            state.spec_screen().mouse == (MouseMode { tracking: 0, sgr: false }),
            state.spec_screen().history_start == 0,
    {
        TerminalState { parser: new_parser(), screen: Screen::new(size) }
    }

    /// Applies output of the shell in chunks of at most `OUTPUT_CHUNK` bytes, trimming the
    /// history after every chunk.
    pub fn apply_terminal_output(&mut self, bytes: &[u8])
        requires
            old(self).wf(),
        ensures
            final(self).wf(),
            did_apply_output(old(self).spec_screen(), final(self).spec_screen(), bytes@.len() as int),
    {
        let ghost mut steps: Seq<Screen> = seq![self.screen];
        let ghost mut reported: Seq<Screen> = Seq::empty();
        let ghost mut all_events: Seq<Seq<VtEvent>> = Seq::empty();
        let mut start: usize = 0;
        while start < bytes.len()
            invariant
                self.wf(),
                start <= bytes@.len(),
                spec_chunk_count(bytes@.len() as int) == steps.len() - 1 + spec_chunk_count(bytes@.len() - start),
                is_output_chain(steps, reported, all_events, old(self).spec_screen(), self.spec_screen(), (steps.len() - 1) as nat),
            decreases bytes@.len() - start,
        {
            let end = if bytes.len() - start > OUTPUT_CHUNK { start + OUTPUT_CHUNK } else { bytes.len() };
            let chunk = vstd::slice::slice_subrange(bytes, start, end);
            let ghost before = self.screen;
            let events = parse(&mut self.parser, chunk);
            apply_events(&mut self.screen, &events);
            let ghost applied = self.screen;
            self.screen.limit_history();
            proof {
                let count = steps.len() - 1;
                let old_steps = steps;
                let old_reported = reported;
                let old_events = all_events;
                steps = steps.push(self.screen);
                reported = reported.push(applied);
                all_events = all_events.push(events@);
                assert forall|k: int| 0 <= k < count + 1 implies #[trigger] did_apply_events(steps[k], reported[k], all_events[k])
                    && did_limit_history(reported[k], steps[k + 1]) by {
                    if k < count {
                        assert(steps[k] == old_steps[k] && steps[k + 1] == old_steps[k + 1]);
                        assert(reported[k] == old_reported[k] && all_events[k] == old_events[k]);
                    } else {
                        assert(steps[k] == before);
                    }
                }
                assert(is_output_chain(steps, reported, all_events, old(self).spec_screen(), self.spec_screen(), (steps.len() - 1) as nat));
            }
            start = end;
        }
    }

    /// Resizes the screen (a zero dimension counts as one), then trims the history.
    pub fn resize(&mut self, size: TerminalSize)
        requires
            old(self).wf(),
        ensures
            final(self).wf(),
            exists|resized: Screen| did_resize(old(self).spec_screen(), resized, size)
                && #[trigger] did_limit_history(resized, final(self).spec_screen()),
    {
        self.screen.resize(size);
        let ghost resized = self.screen;
        self.screen.limit_history();
        assert(did_limit_history(resized, self.spec_screen()));
    }

    /// What a renderer needs to draw the screen.
    pub fn snapshot(&self) -> (snapshot: ScreenSnapshot)
        ensures
            spec_lines_view(snapshot.lines@) == self.spec_screen().buf().lines_view(),
            snapshot.cursor_row == self.spec_screen().buf().cursor.row,
            snapshot.cursor_col == self.spec_screen().buf().cursor.col,
            snapshot.cursor_color == self.spec_screen().buf().cursor_color,
            snapshot.cursor_visible == self.spec_screen().buf().cursor_visible,
            snapshot.history_start == self.spec_screen().history_start,
    {
        self.screen.snapshot()
    }

    /// The mouse reporting that the shell asked for.
    pub fn mouse_mode(&self) -> (mode: MouseMode)
        ensures
            mode == self.spec_screen().mouse,
    {
        self.screen.mouse_mode()
    }
}

} // verus!
