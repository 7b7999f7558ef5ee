use vstd::prelude::*;
use crate::size::TerminalSize;

verus! {

/// What the window sends to a shell session.
#[derive(Debug)]
pub enum SessionInput {
    /// Bytes to write to the shell.
    Write(Vec<u8>),
    /// A new terminal size.
    Resize(TerminalSize),
}

impl SessionInput {
    pub fn write(bytes: Vec<u8>) -> (input: SessionInput)
        ensures
            input == SessionInput::Write(bytes),
    {
        SessionInput::Write(bytes)
    }

    pub fn resize(size: TerminalSize) -> (input: SessionInput)
        ensures
            input == SessionInput::Resize(size),
    {
        SessionInput::Resize(size)
    }
}

/// The shell session is gone: what is sent to it has nowhere to go.
#[derive(Clone, Copy, Debug, PartialEq, Eq, Structural)]
pub struct SessionClosed;

/// What a session first writes to the shell: a report that the cursor is at the top left
/// (`ESC [ 1 ; 1 R`), since shells ask for the cursor position at startup.
pub const INITIAL_CURSOR_REPORT: [u8; 6] = [27, 91, 49, 59, 49, 82];

/// A terminal dimension as a PTY takes it: between 1 and `u16::MAX`.
pub fn clamp_pty_size(value: usize) -> (clamped: u16)
    ensures
        clamped == if value < 1 { 1 } else if value > u16::MAX as usize { u16::MAX as int } else { value as int },
{
    if value < 1 {
        1
    } else if value > 65535 {
        65535
    } else {
        value as u16
    }
}

} // verus!
