//! Decoding of the control sequences that a VT parser dispatches: CSI, ESC and OSC.
use vstd::prelude::*;
use crate::screen::cell::Rgba;

verus! {

/// Which part of a line or of the display an erase command clears.
#[derive(Clone, Copy, Debug, PartialEq, Eq, Structural)]
pub enum EraseMode {
    ToEnd,
    ToStart,
    All,
}

/// Which tab stops a tab clear command removes.
#[derive(Clone, Copy, Debug, PartialEq, Eq, Structural)]
pub enum TabClearMode {
    Current,
    All,
}

/// A decoded CSI sequence. Counts are at least 1.
#[derive(Clone, Debug, PartialEq, Eq)]
pub enum CsiMessage {
    CursorUp(u16),
    CursorDown(u16),
    CursorForward(u16),
    CursorBackward(u16),
    CursorNextLine(u16),
    CursorPreviousLine(u16),
    CursorHorizontalAbsolute(u16),
    CursorVerticalAbsolute(u16),
    CursorHorizontalRelative(u16),
    CursorVerticalRelative(u16),
    CursorPosition { row: u16, col: u16 },
    EraseDisplay(EraseMode),
    EraseLine(EraseMode),
    EraseCharacters(u16),
    DeleteCharacters(u16),
    InsertBlankCharacters(u16),
    InsertLines(u16),
    DeleteLines(u16),
    ScrollUp(u16),
    ScrollDown(u16),
    SetScrollRegion { top: u16, bottom: Option<u16> },
    CursorForwardTabulation(u16),
    CursorBackwardTabulation(u16),
    TabClear(TabClearMode),
    RepeatPrecedingCharacter(u16),
    SaveCursor,
    RestoreCursor,
    SelectGraphicRendition(Vec<u16>),
    SetMode { private: bool, modes: Vec<u16> },
    ResetMode { private: bool, modes: Vec<u16> },
    DeviceStatusReport(u16),
    Unknown,
}

/// A decoded ESC sequence.
#[derive(Clone, Copy, Debug, PartialEq, Eq, Structural)]
pub enum EscMessage {
    SaveCursor,
    RestoreCursor,
    Index,
    NextLine,
    ReverseIndex,
    Reset,
    Unknown,
}

/// A decoded OSC sequence.
#[derive(Clone, Debug, PartialEq, Eq)]
pub enum OscMessage {
    SetCursorColor(Rgba),
    ResetCursorColor,
    SetIconName(Vec<u8>),
    SetWindowTitle(Vec<u8>),
    SetIconAndWindowTitle(Vec<u8>),
    Unknown,
}

/// The parameter groups as sequences.
pub open spec fn spec_groups(params: Seq<Vec<u16>>) -> Seq<Seq<u16>> {
    params.map_values(|g: Vec<u16>| g@)
}

/// The first value of group `i`, or 0 where it is missing.
pub open spec fn spec_raw(groups: Seq<Seq<u16>>, i: int) -> u16 {
    if 0 <= i < groups.len() && groups[i].len() > 0 { groups[i][0] } else { 0 }
}

/// A count parameter: missing and zero both mean one.
pub open spec fn spec_count(groups: Seq<Seq<u16>>, i: int) -> u16 {
    if spec_raw(groups, i) == 0 { 1 } else { spec_raw(groups, i) }
}

/// Every value of every group, in order; no parameter at all means a single zero.
pub open spec fn spec_flatten(groups: Seq<Seq<u16>>) -> Seq<u16>
    decreases groups.len(),
{
    if groups.len() == 0 { Seq::empty() } else { spec_flatten(groups.drop_last()) + groups.last() }
}

pub open spec fn spec_sgr_params(groups: Seq<Seq<u16>>) -> Seq<u16> {
    if groups.len() == 0 { seq![0u16] } else { spec_flatten(groups) }
}

/// The first value of each group: the mode numbers of SM and RM.
pub open spec fn spec_modes(groups: Seq<Seq<u16>>) -> Seq<u16> {
    Seq::new(groups.len(), |i: int| spec_raw(groups, i))
}

pub open spec fn spec_erase_mode(raw: u16) -> Option<EraseMode> {
    if raw == 0 { Some(EraseMode::ToEnd) } else if raw == 1 { Some(EraseMode::ToStart) } else if raw == 2 { Some(EraseMode::All) } else { None }
}

/// Whether the intermediates are acceptable for the final character: none, or the
/// DEC private marker `?` before `h` and `l`.
pub open spec fn spec_plain_intermediates(intermediates: Seq<u8>, action: char) -> bool {
    intermediates.len() == 0 || (intermediates == seq![0x3fu8] && (action == 'h' || action == 'l'))
}

/// What a CSI sequence means: `message` is the decoding of the dispatched values.
pub open spec fn spec_csi(groups: Seq<Seq<u16>>, intermediates: Seq<u8>, ignore: bool, action: char, message: CsiMessage) -> bool {
    let c0 = spec_count(groups, 0);
    if ignore || !spec_plain_intermediates(intermediates, action) {
        message == CsiMessage::Unknown
    } else if action == 'A' { message == CsiMessage::CursorUp(c0) }
    else if action == 'B' { message == CsiMessage::CursorDown(c0) }
    else if action == 'C' { message == CsiMessage::CursorForward(c0) }
    else if action == 'D' { message == CsiMessage::CursorBackward(c0) }
    else if action == 'E' { message == CsiMessage::CursorNextLine(c0) }
    else if action == 'F' { message == CsiMessage::CursorPreviousLine(c0) }
    else if action == 'G' || action == '`' { message == CsiMessage::CursorHorizontalAbsolute(c0) }
    else if action == 'd' { message == CsiMessage::CursorVerticalAbsolute(c0) }
    else if action == 'a' { message == CsiMessage::CursorHorizontalRelative(c0) }
    else if action == 'e' { message == CsiMessage::CursorVerticalRelative(c0) }
    else if action == 'H' || action == 'f' { message == (CsiMessage::CursorPosition { row: c0, col: spec_count(groups, 1) }) }
    else if action == 'J' { message == match spec_erase_mode(spec_raw(groups, 0)) { Some(m) => CsiMessage::EraseDisplay(m), None => CsiMessage::Unknown } }
    else if action == 'K' { message == match spec_erase_mode(spec_raw(groups, 0)) { Some(m) => CsiMessage::EraseLine(m), None => CsiMessage::Unknown } }
    else if action == 'X' { message == CsiMessage::EraseCharacters(c0) }
    else if action == 'P' { message == CsiMessage::DeleteCharacters(c0) }
    else if action == '@' { message == CsiMessage::InsertBlankCharacters(c0) }
    else if action == 'L' { message == CsiMessage::InsertLines(c0) }
    else if action == 'M' { message == CsiMessage::DeleteLines(c0) }
    else if action == 'S' { message == CsiMessage::ScrollUp(c0) }
    else if action == 'T' { message == CsiMessage::ScrollDown(c0) }
    else if action == 'r' {
        message == (CsiMessage::SetScrollRegion { top: spec_raw(groups, 0),
            bottom: if spec_raw(groups, 1) == 0 { None } else { Some(spec_raw(groups, 1)) } })
    }
    else if action == 'I' { message == CsiMessage::CursorForwardTabulation(c0) }
    else if action == 'Z' { message == CsiMessage::CursorBackwardTabulation(c0) }
    else if action == 'g' {
        message == if spec_raw(groups, 0) == 0 { CsiMessage::TabClear(TabClearMode::Current) }
            else if spec_raw(groups, 0) == 3 { CsiMessage::TabClear(TabClearMode::All) } else { CsiMessage::Unknown }
    }
    else if action == 'b' { message == CsiMessage::RepeatPrecedingCharacter(c0) }
    else if action == 's' { message == if groups.len() == 0 { CsiMessage::SaveCursor } else { CsiMessage::Unknown } }
    else if action == 'u' { message == CsiMessage::RestoreCursor }
    else if action == 'm' { message matches CsiMessage::SelectGraphicRendition(p) && p@ == spec_sgr_params(groups) }
    else if action == 'h' { message matches CsiMessage::SetMode { private, modes } && private == (intermediates.len() == 1) && modes@ == spec_modes(groups) }
    else if action == 'l' { message matches CsiMessage::ResetMode { private, modes } && private == (intermediates.len() == 1) && modes@ == spec_modes(groups) }
    else if action == 'n' { message == CsiMessage::DeviceStatusReport(spec_raw(groups, 0)) }
    else { message == CsiMessage::Unknown }
}

fn raw(params: &Vec<Vec<u16>>, i: usize) -> (v: u16)
    ensures
        v == spec_raw(spec_groups(params@), i as int),
{
    if i < params.len() && params[i].len() > 0 { params[i][0] } else { 0 }
}

fn count(params: &Vec<Vec<u16>>, i: usize) -> (v: u16)
    ensures
        v == spec_count(spec_groups(params@), i as int),
{
    let v = raw(params, i);
    if v == 0 { 1 } else { v }
}

fn flatten(params: &Vec<Vec<u16>>) -> (flat: Vec<u16>)
    ensures
        flat@ == spec_flatten(spec_groups(params@)),
{
    let mut flat: Vec<u16> = Vec::new();
    let mut i: usize = 0;
    while i < params.len()
        invariant
            i <= params@.len(),
            flat@ == spec_flatten(spec_groups(params@.subrange(0, i as int))),
        decreases params@.len() - i,
    {
        let group = &params[i];
        let mut j: usize = 0;
        let ghost before = flat@;
        while j < group.len()
            invariant
                j <= group@.len(),
                flat@ == before + group@.subrange(0, j as int),
            decreases group@.len() - j,
        {
            flat.push(group[j]);
            j = j + 1;
            assert(flat@ =~= before + group@.subrange(0, j as int));
        }
        assert(group@.subrange(0, group@.len() as int) =~= group@);
        assert(spec_groups(params@.subrange(0, i + 1)).drop_last() =~= spec_groups(params@.subrange(0, i as int)));
        i = i + 1;
    }
    assert(params@.subrange(0, params@.len() as int) =~= params@);
    flat
}

fn modes(params: &Vec<Vec<u16>>) -> (modes: Vec<u16>)
    ensures
        modes@ == spec_modes(spec_groups(params@)),
{
    let mut modes: Vec<u16> = Vec::new();
    let mut i: usize = 0;
    while i < params.len()
        invariant
            i <= params@.len(),
            modes@ == Seq::new(i as nat, |k: int| spec_raw(spec_groups(params@), k)),
        decreases params@.len() - i,
    {
        modes.push(raw(params, i));
        i = i + 1;
        assert(modes@ =~= Seq::new(i as nat, |k: int| spec_raw(spec_groups(params@), k)));
    }
    modes
}

fn erase_mode(raw: u16) -> (mode: Option<EraseMode>)
    ensures
        mode == spec_erase_mode(raw),
{
    if raw == 0 { Some(EraseMode::ToEnd) } else if raw == 1 { Some(EraseMode::ToStart) } else if raw == 2 { Some(EraseMode::All) } else { None }
}

/// Decodes a CSI sequence from the values a VT parser dispatches: the parameter
/// groups (each a parameter and its colon-separated subparameters), the
/// intermediate bytes, whether the parser gave up on the sequence, and the final character.
pub fn decode_csi(params: &Vec<Vec<u16>>, intermediates: &[u8], ignore: bool, action: char) -> (message: CsiMessage)
    ensures
        spec_csi(spec_groups(params@), intermediates@, ignore, action, message),
{
    let plain = intermediates.len() == 0 || (intermediates.len() == 1 && intermediates[0] == 0x3f && (action == 'h' || action == 'l'));
    proof {
        if intermediates@.len() == 1 && intermediates@[0] == 0x3f {
            assert(intermediates@ =~= seq![0x3fu8]);
        }
    }
    if ignore || !plain {
        return CsiMessage::Unknown;
    }
    let c0 = count(params, 0);
    if action == 'A' { CsiMessage::CursorUp(c0) }
    else if action == 'B' { CsiMessage::CursorDown(c0) }
    else if action == 'C' { CsiMessage::CursorForward(c0) }
    else if action == 'D' { CsiMessage::CursorBackward(c0) }
    else if action == 'E' { CsiMessage::CursorNextLine(c0) }
    else if action == 'F' { CsiMessage::CursorPreviousLine(c0) }
    else if action == 'G' || action == '`' { CsiMessage::CursorHorizontalAbsolute(c0) }
    else if action == 'd' { CsiMessage::CursorVerticalAbsolute(c0) }
    else if action == 'a' { CsiMessage::CursorHorizontalRelative(c0) }
    else if action == 'e' { CsiMessage::CursorVerticalRelative(c0) }
    else if action == 'H' || action == 'f' { CsiMessage::CursorPosition { row: c0, col: count(params, 1) } }
    else if action == 'J' { match erase_mode(raw(params, 0)) { Some(m) => CsiMessage::EraseDisplay(m), None => CsiMessage::Unknown } }
    else if action == 'K' { match erase_mode(raw(params, 0)) { Some(m) => CsiMessage::EraseLine(m), None => CsiMessage::Unknown } }
    else if action == 'X' { CsiMessage::EraseCharacters(c0) }
    else if action == 'P' { CsiMessage::DeleteCharacters(c0) }
    else if action == '@' { CsiMessage::InsertBlankCharacters(c0) }
    else if action == 'L' { CsiMessage::InsertLines(c0) }
    else if action == 'M' { CsiMessage::DeleteLines(c0) }
    else if action == 'S' { CsiMessage::ScrollUp(c0) }
    else if action == 'T' { CsiMessage::ScrollDown(c0) }
    else if action == 'r' {
        let bottom = raw(params, 1);
        CsiMessage::SetScrollRegion { top: raw(params, 0), bottom: if bottom == 0 { None } else { Some(bottom) } }
    }
    else if action == 'I' { CsiMessage::CursorForwardTabulation(c0) }
    else if action == 'Z' { CsiMessage::CursorBackwardTabulation(c0) }
    else if action == 'g' {
        let mode = raw(params, 0);
        if mode == 0 { CsiMessage::TabClear(TabClearMode::Current) }
        else if mode == 3 { CsiMessage::TabClear(TabClearMode::All) } else { CsiMessage::Unknown }
    }
    else if action == 'b' { CsiMessage::RepeatPrecedingCharacter(c0) }
    else if action == 's' { if params.len() == 0 { CsiMessage::SaveCursor } else { CsiMessage::Unknown } }
    else if action == 'u' { CsiMessage::RestoreCursor }
    else if action == 'm' {
        if params.len() == 0 {
            let mut reset: Vec<u16> = Vec::new();
            reset.push(0);
            assert(reset@ =~= seq![0u16]);
            CsiMessage::SelectGraphicRendition(reset)
        } else {
            CsiMessage::SelectGraphicRendition(flatten(params))
        }
    }
    else if action == 'h' { CsiMessage::SetMode { private: intermediates.len() == 1, modes: modes(params) } }
    else if action == 'l' { CsiMessage::ResetMode { private: intermediates.len() == 1, modes: modes(params) } }
    else if action == 'n' { CsiMessage::DeviceStatusReport(raw(params, 0)) }
    else { CsiMessage::Unknown }
}

/// What an ESC sequence means.
pub open spec fn spec_esc(intermediates: Seq<u8>, ignore: bool, byte: u8) -> EscMessage {
    if ignore || intermediates.len() != 0 { EscMessage::Unknown }
    else if byte == 0x37 { EscMessage::SaveCursor }
    else if byte == 0x38 { EscMessage::RestoreCursor }
    else if byte == 0x44 { EscMessage::Index }
    else if byte == 0x45 { EscMessage::NextLine }
    else if byte == 0x4d { EscMessage::ReverseIndex }
    else if byte == 0x63 { EscMessage::Reset }
    else { EscMessage::Unknown }
}

/// Decodes an ESC sequence from its intermediates and final byte.
pub fn decode_esc(intermediates: &[u8], ignore: bool, byte: u8) -> (message: EscMessage)
    ensures
        message == spec_esc(intermediates@, ignore, byte),
{
    if ignore || intermediates.len() != 0 { EscMessage::Unknown }
    else if byte == 0x37 { EscMessage::SaveCursor }
    else if byte == 0x38 { EscMessage::RestoreCursor }
    else if byte == 0x44 { EscMessage::Index }
    else if byte == 0x45 { EscMessage::NextLine }
    else if byte == 0x4d { EscMessage::ReverseIndex }
    else if byte == 0x63 { EscMessage::Reset }
    else { EscMessage::Unknown }
}

/// The value of a hexadecimal digit.
pub open spec fn spec_hex(b: u8) -> Option<u8> {
    if 0x30 <= b <= 0x39 { Some((b - 0x30) as u8) }
    else if 0x61 <= b <= 0x66 { Some((b - 0x61 + 10) as u8) }
    else if 0x41 <= b <= 0x46 { Some((b - 0x41 + 10) as u8) }
    else { None }
}

/// The byte that two hexadecimal digits at `i` spell.
pub open spec fn spec_hex_pair(s: Seq<u8>, i: int) -> Option<u8> {
    match (spec_hex(s[i]), spec_hex(s[i + 1])) {
        (Some(h), Some(l)) => Some((h * 16 + l) as u8),
        _ => None,
    }
}

/// Parses `#rrggbb` or `rgb:rr/gg/bb` into an opaque color.
pub open spec fn spec_parse_color(s: Seq<u8>) -> Option<Rgba> {
    if s.len() == 7 && s[0] == 0x23 {
        match (spec_hex_pair(s, 1), spec_hex_pair(s, 3), spec_hex_pair(s, 5)) {
            (Some(r), Some(g), Some(b)) => Some([r, g, b, 255u8]),
            _ => None,
        }
    } else if s.len() == 12 && s.subrange(0, 4) == seq![0x72u8, 0x67u8, 0x62u8, 0x3au8] && s[6] == 0x2f && s[9] == 0x2f {
        match (spec_hex_pair(s, 4), spec_hex_pair(s, 7), spec_hex_pair(s, 10)) {
            (Some(r), Some(g), Some(b)) => Some([r, g, b, 255u8]),
            _ => None,
        }
    } else {
        None
    }
}

fn hex(b: u8) -> (v: Option<u8>)
    ensures
        v == spec_hex(b),
{
    if 0x30 <= b && b <= 0x39 { Some(b - 0x30) }
    else if 0x61 <= b && b <= 0x66 { Some(b - 0x61 + 10) }
    else if 0x41 <= b && b <= 0x46 { Some(b - 0x41 + 10) }
    else { None }
}

fn hex_pair(s: &Vec<u8>, i: usize) -> (v: Option<u8>)
    requires
        i + 1 < s@.len(),
    ensures
        v == spec_hex_pair(s@, i as int),
{
    let n = s.len();
    match (hex(s[i]), hex(s[i + 1])) {
        (Some(h), Some(l)) => Some(h * 16 + l),
        _ => None,
    }
}

/// Parses a color specification of an OSC sequence.
pub fn parse_color(s: &Vec<u8>) -> (color: Option<Rgba>)
    ensures
        color == spec_parse_color(s@),
{
    if s.len() == 7 && s[0] == 0x23 {
        match (hex_pair(s, 1), hex_pair(s, 3), hex_pair(s, 5)) {
            (Some(r), Some(g), Some(b)) => Some([r, g, b, 255]),
            _ => None,
        }
    } else if s.len() == 12 && s[0] == 0x72 && s[1] == 0x67 && s[2] == 0x62 && s[3] == 0x3a && s[6] == 0x2f && s[9] == 0x2f {
        assert(s@.subrange(0, 4) =~= seq![0x72u8, 0x67u8, 0x62u8, 0x3au8]);
        match (hex_pair(s, 4), hex_pair(s, 7), hex_pair(s, 10)) {
            (Some(r), Some(g), Some(b)) => Some([r, g, b, 255]),
            _ => None,
        }
    } else {
        proof {
            if s@.len() == 12 && s@.subrange(0, 4) == seq![0x72u8, 0x67u8, 0x62u8, 0x3au8] {
                assert(s@[0] == s@.subrange(0, 4)[0]);
                assert(s@[1] == s@.subrange(0, 4)[1]);
                assert(s@[2] == s@.subrange(0, 4)[2]);
                assert(s@[3] == s@.subrange(0, 4)[3]);
            }
        }
        None
    }
}

/// What an OSC sequence means: the command number is the first parameter.
pub open spec fn spec_osc(params: Seq<Seq<u8>>, message: OscMessage) -> bool {
    let twelve = seq![0x31u8, 0x32u8];
    let one_twelve = seq![0x31u8, 0x31u8, 0x32u8];
    if params.len() == 0 {
        message == OscMessage::Unknown
    } else if params[0] == twelve && params.len() >= 2 {
        message == match spec_parse_color(params[1]) { Some(c) => OscMessage::SetCursorColor(c), None => OscMessage::Unknown }
    } else if params[0] == one_twelve {
        message == OscMessage::ResetCursorColor
    } else if params[0] == seq![0x30u8] && params.len() >= 2 {
        message matches OscMessage::SetIconAndWindowTitle(t) && t@ == params[1]
    } else if params[0] == seq![0x31u8] && params.len() >= 2 {
        message matches OscMessage::SetIconName(t) && t@ == params[1]
    } else if params[0] == seq![0x32u8] && params.len() >= 2 {
        message matches OscMessage::SetWindowTitle(t) && t@ == params[1]
    } else {
        message == OscMessage::Unknown
    }
}

/// Whether the bytes spell the given one-, two- or three-digit decimal command (digits as ASCII, unused ones zero).
fn is_command(a: &Vec<u8>, d0: u8, d1: u8, d2: u8, len: usize) -> (eq: bool)
    requires
        1 <= len <= 3,
    ensures
        eq == (a@ == seq![d0, d1, d2].subrange(0, len as int)),
{
    let eq = a.len() == len && a[0] == d0 && (len < 2 || a[1] == d1) && (len < 3 || a[2] == d2);
    proof {
        let target = seq![d0, d1, d2].subrange(0, len as int);
        if eq {
            assert(a@ =~= target);
        } else if a@.len() == len {
            if a@ == target {
                assert(a@[0] == target[0]);
                if len >= 2 { assert(a@[1] == target[1]); }
                if len >= 3 { assert(a@[2] == target[2]); }
            }
        }
    }
    eq
}

fn copy_bytes(b: &Vec<u8>) -> (c: Vec<u8>)
    ensures
        c@ == b@,
{
    let mut c: Vec<u8> = Vec::new();
    let mut i: usize = 0;
    while i < b.len()
        invariant
            i <= b@.len(),
            c@ == b@.subrange(0, i as int),
        decreases b@.len() - i,
    {
        c.push(b[i]);
        i = i + 1;
        assert(c@ =~= b@.subrange(0, i as int));
    }
    assert(b@.subrange(0, b@.len() as int) =~= b@);
    c
}

/// Decodes an OSC sequence from its semicolon-separated parameters.
pub fn decode_osc(params: &Vec<Vec<u8>>) -> (message: OscMessage)
    ensures
        spec_osc(params@.map_values(|p: Vec<u8>| p@), message),
{
    let ghost view = params@.map_values(|p: Vec<u8>| p@);
    if params.len() == 0 {
        return OscMessage::Unknown;
    }
    let command = &params[0];
    assert(view[0] == command@);
    if params.len() >= 2 {
        assert(view[1] == params@[1]@);
    }
    assert(seq![0x31u8, 0x32u8, 0u8].subrange(0, 2) =~= seq![0x31u8, 0x32u8]);
    assert(seq![0x31u8, 0x31u8, 0x32u8].subrange(0, 3) =~= seq![0x31u8, 0x31u8, 0x32u8]);
    assert(seq![0x30u8, 0u8, 0u8].subrange(0, 1) =~= seq![0x30u8]);
    assert(seq![0x31u8, 0u8, 0u8].subrange(0, 1) =~= seq![0x31u8]);
    assert(seq![0x32u8, 0u8, 0u8].subrange(0, 1) =~= seq![0x32u8]);
    if is_command(command, 0x31, 0x32, 0, 2) && params.len() >= 2 {
        match parse_color(&params[1]) {
            Some(c) => OscMessage::SetCursorColor(c),
            None => OscMessage::Unknown,
        }
    } else if is_command(command, 0x31, 0x31, 0x32, 3) {
        OscMessage::ResetCursorColor
    } else if is_command(command, 0x30, 0, 0, 1) && params.len() >= 2 {
        OscMessage::SetIconAndWindowTitle(copy_bytes(&params[1]))
    } else if is_command(command, 0x31, 0, 0, 1) && params.len() >= 2 {
        OscMessage::SetIconName(copy_bytes(&params[1]))
    } else if is_command(command, 0x32, 0, 0, 1) && params.len() >= 2 {
        OscMessage::SetWindowTitle(copy_bytes(&params[1]))
    } else {
        OscMessage::Unknown
    }
}

} // verus!
