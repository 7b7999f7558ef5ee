//! Xterm mouse tracking and encoding, shared by both screen buffers.
use vstd::prelude::*;

verus! {

/// Which mouse events the application asked for, and how to encode them.
#[derive(Clone, Copy, Debug, PartialEq, Eq, Structural)]
pub struct MouseMode {
    /// 0 (off), 1000 (buttons), 1002 (buttons and drags) or 1003 (all motion).
    pub tracking: u16,
    /// Whether reports use the SGR (1006) encoding.
    pub sgr: bool,
}

/// The decimal digits of a number, as ASCII bytes.
pub open spec fn spec_decimal(n: nat) -> Seq<u8>
    decreases n,
{
    if n < 10 {
        seq![(48 + n) as u8]
    } else {
        spec_decimal(n / 10).push((48 + n % 10) as u8)
    }
}

/// Whether a report with this button code is sent at all under the tracking mode.
pub open spec fn spec_reports(tracking: u16, code: u8) -> bool {
    tracking != 0 && !((code & 32u8) != 0 && (tracking == 1000 || (tracking == 1002 && (code & 3u8) == 3)))
}

/// The bytes of a mouse report, or `None` when no report is sent.
pub open spec fn spec_encode(mode: MouseMode, code: u8, released: bool, col: nat, row: nat) -> Option<Seq<u8>> {
    let x = col + 1;
    let y = row + 1;
    if !spec_reports(mode.tracking, code) || x > usize::MAX || y > usize::MAX {
        None
    } else if mode.sgr {
        Some(seq![0x1bu8, 0x5bu8, 0x3cu8] + spec_decimal(code as nat) + seq![0x3bu8] + spec_decimal(x)
            + seq![0x3bu8] + spec_decimal(y) + seq![if released { 0x6du8 } else { 0x4du8 }])
    } else if x <= 223 && y <= 223 {
        let c: u8 = if released { ((code & 28u8) | 3u8) as u8 } else { code };
        if c + 32 > 255 {
            None
        } else {
            Some(seq![0x1bu8, 0x5bu8, 0x4du8, (c + 32) as u8, (x + 32) as u8, (y + 32) as u8])
        }
    } else {
        None
    }
}

/// Appends the decimal digits of `n`.
pub fn push_decimal(out: &mut Vec<u8>, n: usize)
    ensures
        final(out)@ == old(out)@ + spec_decimal(n as nat),
    decreases n,
{
    if n >= 10 {
        push_decimal(out, n / 10);
    }
    out.push((48 + n % 10) as u8);
    assert(final(out)@ =~= old(out)@ + spec_decimal(n as nat));
}

impl Default for MouseMode {
    fn default() -> (mode: MouseMode)
        ensures
            mode == (MouseMode { tracking: 0, sgr: false }),
    {
        MouseMode { tracking: 0, sgr: false }
    }
}

impl MouseMode {
    /// Applies a DEC private mode that concerns the mouse; other modes are ignored.
    pub fn set(&mut self, mode: u16, enabled: bool)
        ensures
            (mode == 1000 || mode == 1002 || mode == 1003) ==> *final(self) == (MouseMode { tracking: if enabled { mode } else { 0 }, sgr: old(self).sgr }),
            mode == 1006 ==> *final(self) == (MouseMode { tracking: old(self).tracking, sgr: enabled }),
            !(mode == 1000 || mode == 1002 || mode == 1003 || mode == 1006) ==> *final(self) == *old(self),
    {
        if mode == 1000 || mode == 1002 || mode == 1003 {
            self.tracking = if enabled { mode } else { 0 };
        } else if mode == 1006 {
            self.sgr = enabled;
        }
    }

    /// `code` is the xterm button code including modifier and motion bits.
    /// Cell coordinates are zero-based; wire coordinates are one-based.
    pub fn encode(self, code: u8, released: bool, col: usize, row: usize) -> (bytes: Option<Vec<u8>>)
        ensures
            match bytes {
                Some(b) => spec_encode(self, code, released, col as nat, row as nat) == Some(b@),
                None => spec_encode(self, code, released, col as nat, row as nat) is None,
            },
    {
        if self.tracking == 0 || ((code & 32) != 0 && (self.tracking == 1000 || (self.tracking == 1002 && (code & 3) == 3))) {
            return None;
        }
        if col == usize::MAX || row == usize::MAX {
            return None;
        }
        let x = col + 1;
        let y = row + 1;
        if self.sgr {
            let mut out: Vec<u8> = Vec::new();
            out.push(0x1b);
            out.push(0x5b);
            out.push(0x3c);
            push_decimal(&mut out, code as usize);
            out.push(0x3b);
            push_decimal(&mut out, x);
            out.push(0x3b);
            push_decimal(&mut out, y);
            out.push(if released { 0x6d } else { 0x4d });
            assert(out@ =~= seq![0x1bu8, 0x5bu8, 0x3cu8] + spec_decimal(code as nat) + seq![0x3bu8] + spec_decimal(x as nat)
                + seq![0x3bu8] + spec_decimal(y as nat) + seq![if released { 0x6du8 } else { 0x4du8 }]);
            Some(out)
        } else if x <= 223 && y <= 223 {
            let c: u8 = if released { (code & 28) | 3 } else { code };
            if c > 223 {
                return None;
            }
            let mut out: Vec<u8> = Vec::new();
            out.push(0x1b);
            out.push(0x5b);
            out.push(0x4d);
            out.push(c + 32);
            out.push((x + 32) as u8);
            out.push((y + 32) as u8);
            assert(out@ =~= seq![0x1bu8, 0x5bu8, 0x4du8, (c + 32) as u8, (x + 32) as u8, (y + 32) as u8]);
            Some(out)
        } else {
            None
        }
    }
}

} // verus!
