use vstd::prelude::*;
use vstd::string::{StrSliceExecFns, StringSliceAdditionalSpecFns};
use crate::size::TerminalSize;
use crate::ui::copy::CopyModeMove;

verus! {

/// Keys that have a name rather than a character.
#[derive(Clone, Copy, Debug, PartialEq, Eq, Structural)]
pub enum NamedKey {
    Enter,
    Backspace,
    Tab,
    Escape,
    ArrowUp,
    ArrowDown,
    ArrowRight,
    ArrowLeft,
    Home,
    End,
    PageUp,
    PageDown,
    Other,
}

/// A key as the keyboard layout reports it.
#[derive(Clone, Debug, PartialEq, Eq)]
pub enum Key {
    Named(NamedKey),
    Character(String),
    Unidentified,
}

/// Whether a key went down or came up.
#[derive(Clone, Copy, Debug, PartialEq, Eq, Structural)]
pub enum KeyState {
    Pressed,
    Released,
}

/// The modifier keys held.
#[derive(Clone, Copy, Debug, PartialEq, Eq, Structural)]
pub struct Modifiers {
    pub shift: bool,
    pub control: bool,
    pub alt: bool,
    pub logo: bool,
}

impl Modifiers {
    pub fn empty() -> (modifiers: Modifiers)
        ensures
            !modifiers.shift && !modifiers.control && !modifiers.alt && !modifiers.logo,
    {
        Modifiers { shift: false, control: false, alt: false, logo: false }
    }

    /// The bits a mouse report adds for held modifiers: 4 for shift, 8 for alt, 16 for control.
    pub open spec fn mouse_bits_spec(&self) -> u8 {
        ((if self.shift { 4int } else { 0 }) + (if self.alt { 8int } else { 0 }) + (if self.control {
            16int
        } else {
            0
        })) as u8
    }

    pub fn mouse_bits(&self) -> (bits: u8)
        ensures
            bits == self.mouse_bits_spec(),
    {
        let mut bits: u8 = 0;
        if self.shift {
            bits = bits + 4;
        }
        if self.alt {
            bits = bits + 8;
        }
        if self.control {
            bits = bits + 16;
        }
        bits
    }
}

/// What copy mode does for a key.
#[derive(Clone, Copy, Debug, PartialEq, Eq, Structural)]
pub enum CopyModeCommand {
    Move(CopyModeMove),
    ToggleCellSelection,
    ToggleLineSelection,
    CopyAndExit,
    Exit,
}

/// What the application does for an input.
#[derive(Clone, Debug, PartialEq, Eq)]
pub enum AppCommand {
    Noop,
    SendTerminalInput(Vec<u8>),
    EnterCopyMode,
    CopyMode(CopyModeCommand),
    NewTab,
    CloseTab,
    NextTab,
    PreviousTab,
    CopySelection,
    PasteFromClipboard,
    Resize { window_width: u32, window_height: u32, terminal_size: TerminalSize },
}

/// A key whose text is exactly `c`.
pub open spec fn spec_is(key: Key, c: char) -> bool {
    key matches Key::Character(s) && s@ == seq![c]
}

/// A key whose text is `lower` or `upper`, one character.
pub open spec fn spec_is_either(key: Key, lower: char, upper: char) -> bool {
    key matches Key::Character(s) && (s@ == seq![lower] || s@ == seq![upper])
}

/// The copy-mode meaning of a key, in the order the rules are tried.
pub open spec fn spec_copy_mode_command(key: Key, m: Modifiers) -> Option<CopyModeCommand> {
    if key == Key::Named(NamedKey::Escape) {
        Some(CopyModeCommand::Exit)
    } else if key == Key::Named(NamedKey::Home) {
        Some(CopyModeCommand::Move(CopyModeMove::StartOfLine))
    } else if key == Key::Named(NamedKey::End) {
        Some(CopyModeCommand::Move(CopyModeMove::EndOfLine))
    } else if key == Key::Named(NamedKey::PageUp) {
        Some(CopyModeCommand::Move(CopyModeMove::PageUp))
    } else if key == Key::Named(NamedKey::PageDown) {
        Some(CopyModeCommand::Move(CopyModeMove::PageDown))
    } else if key == Key::Named(NamedKey::ArrowLeft) {
        Some(CopyModeCommand::Move(CopyModeMove::Left))
    } else if key == Key::Named(NamedKey::ArrowDown) {
        Some(CopyModeCommand::Move(CopyModeMove::Down))
    } else if key == Key::Named(NamedKey::ArrowUp) {
        Some(CopyModeCommand::Move(CopyModeMove::Up))
    } else if key == Key::Named(NamedKey::ArrowRight) {
        Some(CopyModeCommand::Move(CopyModeMove::Right))
    } else if m.control && spec_is_either(key, 'c', 'C') {
        Some(CopyModeCommand::CopyAndExit)
    } else if spec_is(key, 'h') {
        Some(CopyModeCommand::Move(CopyModeMove::Left))
    } else if spec_is(key, 'j') {
        Some(CopyModeCommand::Move(CopyModeMove::Down))
    } else if spec_is(key, 'k') {
        Some(CopyModeCommand::Move(CopyModeMove::Up))
    } else if spec_is(key, 'l') {
        Some(CopyModeCommand::Move(CopyModeMove::Right))
    } else if spec_is(key, 'w') {
        Some(CopyModeCommand::Move(CopyModeMove::NextWord))
    } else if spec_is(key, 'b') {
        Some(CopyModeCommand::Move(CopyModeMove::PreviousWord))
    } else if spec_is(key, 'e') {
        Some(CopyModeCommand::Move(CopyModeMove::WordEnd))
    } else if spec_is(key, '0') {
        Some(CopyModeCommand::Move(CopyModeMove::StartOfLine))
    } else if spec_is(key, '$') || (m.shift && spec_is(key, '4')) {
        Some(CopyModeCommand::Move(CopyModeMove::EndOfLine))
    } else if spec_is(key, 'g') {
        Some(CopyModeCommand::Move(CopyModeMove::FirstLine))
    } else if m.shift && spec_is_either(key, 'g', 'G') {
        Some(CopyModeCommand::Move(CopyModeMove::LastLine))
    } else if spec_is_either(key, 'q', 'Q') {
        Some(CopyModeCommand::Exit)
    } else if spec_is(key, 'y') {
        Some(CopyModeCommand::CopyAndExit)
    } else if m.shift && spec_is_either(key, 'v', 'V') {
        Some(CopyModeCommand::ToggleLineSelection)
    } else if spec_is(key, 'v') {
        Some(CopyModeCommand::ToggleCellSelection)
    } else {
        None
    }
}

/// The application shortcut of a key, if it is one.
pub open spec fn spec_shortcut_command(key: Key, m: Modifiers) -> Option<AppCommand> {
    if m.control && m.shift {
        if spec_is_either(key, 'q', 'Q') {
            Some(AppCommand::EnterCopyMode)
        } else if spec_is_either(key, 't', 'T') {
            Some(AppCommand::NewTab)
        } else if spec_is_either(key, 'w', 'W') {
            Some(AppCommand::CloseTab)
        } else if spec_is_either(key, 'c', 'C') {
            Some(AppCommand::CopySelection)
        } else if spec_is_either(key, 'v', 'V') {
            Some(AppCommand::PasteFromClipboard)
        } else if key == Key::Named(NamedKey::Tab) {
            Some(AppCommand::PreviousTab)
        } else {
            None
        }
    } else if m.control {
        if spec_is_either(key, 'v', 'V') {
            Some(AppCommand::PasteFromClipboard)
        } else if key == Key::Named(NamedKey::Tab) {
            Some(AppCommand::NextTab)
        } else {
            None
        }
    } else {
        None
    }
}

/// The control byte for a one-letter key: the letter's position in the alphabet.
pub open spec fn spec_control_character(bytes: Seq<u8>) -> Option<u8> {
    if bytes.len() == 1 && (('a' as u8 <= bytes[0] && bytes[0] <= 'z' as u8) || ('A' as u8 <= bytes[0]
        && bytes[0] <= 'Z' as u8)) {
        let upper = if bytes[0] >= 'a' as u8 { bytes[0] - 32 } else { bytes[0] as int };
        Some((upper - 64) as u8)
    } else {
        None
    }
}

/// The bytes a key sends to the shell, if it sends any.
pub open spec fn spec_key_bytes(text: Option<String>, key: Key, m: Modifiers) -> Option<Seq<u8>> {
    match key {
        Key::Named(NamedKey::Enter) => Some(seq![13u8]),
        Key::Named(NamedKey::Backspace) => Some(seq![127u8]),
        Key::Named(NamedKey::Tab) => Some(seq![9u8]),
        Key::Named(NamedKey::Escape) => Some(seq![27u8]),
        Key::Named(NamedKey::ArrowUp) => Some(seq![27u8, 91u8, 65u8]),
        Key::Named(NamedKey::ArrowDown) => Some(seq![27u8, 91u8, 66u8]),
        Key::Named(NamedKey::ArrowRight) => Some(seq![27u8, 91u8, 67u8]),
        Key::Named(NamedKey::ArrowLeft) => Some(seq![27u8, 91u8, 68u8]),
        Key::Character(s) if m.control => match spec_control_character(vstd::utf8::encode_utf8(s@)) {
            Some(b) => Some(seq![b]),
            None => None,
        },
        _ => match text {
            Some(t) => Some(vstd::utf8::encode_utf8(t@)),
            None => None,
        },
    }
}

/// Enter sends a carriage return, Backspace DEL, Tab a horizontal tab and Escape ESC, whatever
/// the modifiers and the key's text, and none of them differs from another.
pub proof fn lemma_editing_keys_send_control_bytes(text: Option<String>, m: Modifiers)
    ensures
        spec_key_bytes(text, Key::Named(NamedKey::Enter), m) == Some(seq!['\r' as u8]),
        spec_key_bytes(text, Key::Named(NamedKey::Backspace), m) == Some(seq![0x7fu8]),
        spec_key_bytes(text, Key::Named(NamedKey::Tab), m) == Some(seq!['\t' as u8]),
        spec_key_bytes(text, Key::Named(NamedKey::Escape), m) == Some(seq![0x1bu8]),
{
}

/// With Control held, a letter key sends the control byte of its letter: its place in the
/// alphabet, from 1 for A to 26 for Z, the same for the lower and the upper case; a byte
/// that is no letter has no control byte.
pub proof fn lemma_control_letters(letter: u8, other: u8)
    requires
        'a' as u8 <= letter <= 'z' as u8,
        !('a' as u8 <= other <= 'z' as u8) && !('A' as u8 <= other <= 'Z' as u8),
    ensures
        spec_control_character(seq![letter]) == Some((letter - 'a' as u8 + 1) as u8),
        spec_control_character(seq![(letter - 32) as u8]) == spec_control_character(seq![letter]),
        1 <= spec_control_character(seq![letter]).unwrap() <= 26,
        spec_control_character(seq![other]) is None,
{
}

/// Whether a key is one of the four cursor keys.
pub open spec fn spec_is_arrow(key: NamedKey) -> bool {
    key == NamedKey::ArrowUp || key == NamedKey::ArrowDown || key == NamedKey::ArrowRight || key == NamedKey::ArrowLeft
}

/// The cursor keys send the cursor sequences of a VT100 whatever the modifiers and the key's
/// text: ESC [ A for up, ESC [ B for down, ESC [ C for right and ESC [ D for left. So two
/// different cursor keys never send the same bytes, and no cursor key is a shortcut.
pub proof fn lemma_arrow_keys_send_cursor_sequences(text: Option<String>, m: Modifiers, a: NamedKey, b: NamedKey)
    requires
        spec_is_arrow(a),
        spec_is_arrow(b),
    ensures
        spec_shortcut_command(Key::Named(a), m) is None,
        spec_key_bytes(text, Key::Named(NamedKey::ArrowUp), m) == Some(seq![0x1bu8, '[' as u8, 'A' as u8]),
        spec_key_bytes(text, Key::Named(NamedKey::ArrowDown), m) == Some(seq![0x1bu8, '[' as u8, 'B' as u8]),
        spec_key_bytes(text, Key::Named(NamedKey::ArrowRight), m) == Some(seq![0x1bu8, '[' as u8, 'C' as u8]),
        spec_key_bytes(text, Key::Named(NamedKey::ArrowLeft), m) == Some(seq![0x1bu8, '[' as u8, 'D' as u8]),
        a != b ==> spec_key_bytes(text, Key::Named(a), m) != spec_key_bytes(text, Key::Named(b), m),
{
    let ka = spec_key_bytes(text, Key::Named(a), m).unwrap();
    let kb = spec_key_bytes(text, Key::Named(b), m).unwrap();
    if a != b {
        assert(ka[2] != kb[2]);
    }
}

/// Whether a key's text is exactly `c`.
fn is_text(key: &Key, c: char) -> (yes: bool)
    ensures
        yes == spec_is(*key, c),
{
    match key {
        Key::Character(s) => {
            let text = s.as_str();
            let one = text.unicode_len() == 1;
            if one {
                let first = text.get_char(0);
                proof {
                    if first == c {
                        assert(text@ =~= seq![c]);
                    }
                }
                first == c
            } else {
                false
            }
        },
        _ => false,
    }
}

fn is_either(key: &Key, lower: char, upper: char) -> (yes: bool)
    ensures
        yes == spec_is_either(*key, lower, upper),
{
    is_text(key, lower) || is_text(key, upper)
}

fn is_named(key: &Key, name: NamedKey) -> (yes: bool)
    ensures
        yes == (*key == Key::Named(name)),
{
    match key {
        Key::Named(n) => *n == name,
        _ => false,
    }
}

/// What copy mode does for `key`.
pub fn copy_mode_command(key: &Key, modifiers: Modifiers) -> (command: Option<CopyModeCommand>)
    ensures
        command == spec_copy_mode_command(*key, modifiers),
{
    if is_named(key, NamedKey::Escape) {
        Some(CopyModeCommand::Exit)
    } else if is_named(key, NamedKey::Home) {
        Some(CopyModeCommand::Move(CopyModeMove::StartOfLine))
    } else if is_named(key, NamedKey::End) {
        Some(CopyModeCommand::Move(CopyModeMove::EndOfLine))
    } else if is_named(key, NamedKey::PageUp) {
        Some(CopyModeCommand::Move(CopyModeMove::PageUp))
    } else if is_named(key, NamedKey::PageDown) {
        Some(CopyModeCommand::Move(CopyModeMove::PageDown))
    } else if is_named(key, NamedKey::ArrowLeft) {
        Some(CopyModeCommand::Move(CopyModeMove::Left))
    } else if is_named(key, NamedKey::ArrowDown) {
        Some(CopyModeCommand::Move(CopyModeMove::Down))
    } else if is_named(key, NamedKey::ArrowUp) {
        Some(CopyModeCommand::Move(CopyModeMove::Up))
    } else if is_named(key, NamedKey::ArrowRight) {
        Some(CopyModeCommand::Move(CopyModeMove::Right))
    } else if modifiers.control && is_either(key, 'c', 'C') {
        Some(CopyModeCommand::CopyAndExit)
    } else if is_text(key, 'h') {
        Some(CopyModeCommand::Move(CopyModeMove::Left))
    } else if is_text(key, 'j') {
        Some(CopyModeCommand::Move(CopyModeMove::Down))
    } else if is_text(key, 'k') {
        Some(CopyModeCommand::Move(CopyModeMove::Up))
    } else if is_text(key, 'l') {
        Some(CopyModeCommand::Move(CopyModeMove::Right))
    } else if is_text(key, 'w') {
        Some(CopyModeCommand::Move(CopyModeMove::NextWord))
    } else if is_text(key, 'b') {
        Some(CopyModeCommand::Move(CopyModeMove::PreviousWord))
    } else if is_text(key, 'e') {
        Some(CopyModeCommand::Move(CopyModeMove::WordEnd))
    } else if is_text(key, '0') {
        Some(CopyModeCommand::Move(CopyModeMove::StartOfLine))
    } else if is_text(key, '$') || (modifiers.shift && is_text(key, '4')) {
        Some(CopyModeCommand::Move(CopyModeMove::EndOfLine))
    } else if is_text(key, 'g') {
        Some(CopyModeCommand::Move(CopyModeMove::FirstLine))
    } else if modifiers.shift && is_either(key, 'g', 'G') {
        Some(CopyModeCommand::Move(CopyModeMove::LastLine))
    } else if is_either(key, 'q', 'Q') {
        Some(CopyModeCommand::Exit)
    } else if is_text(key, 'y') {
        Some(CopyModeCommand::CopyAndExit)
    } else if modifiers.shift && is_either(key, 'v', 'V') {
        Some(CopyModeCommand::ToggleLineSelection)
    } else if is_text(key, 'v') {
        Some(CopyModeCommand::ToggleCellSelection)
    } else {
        None
    }
}

/// The application shortcut of `key`, if it is one.
pub fn shortcut_command(key: &Key, modifiers: Modifiers) -> (command: Option<AppCommand>)
    ensures
        command == spec_shortcut_command(*key, modifiers),
{
    if modifiers.control && modifiers.shift {
        if is_either(key, 'q', 'Q') {
            Some(AppCommand::EnterCopyMode)
        } else if is_either(key, 't', 'T') {
            Some(AppCommand::NewTab)
        } else if is_either(key, 'w', 'W') {
            Some(AppCommand::CloseTab)
        } else if is_either(key, 'c', 'C') {
            Some(AppCommand::CopySelection)
        } else if is_either(key, 'v', 'V') {
            Some(AppCommand::PasteFromClipboard)
        } else if is_named(key, NamedKey::Tab) {
            Some(AppCommand::PreviousTab)
        } else {
            None
        }
    } else if modifiers.control {
        if is_either(key, 'v', 'V') {
            Some(AppCommand::PasteFromClipboard)
        } else if is_named(key, NamedKey::Tab) {
            Some(AppCommand::NextTab)
        } else {
            None
        }
    } else {
        None
    }
}

/// The control byte of a one-letter key: Ctrl+A is 1, Ctrl+Z is 26.
pub fn control_character(character: &str) -> (byte: Option<u8>)
    ensures
        byte == spec_control_character(character.spec_bytes()),
{
    let bytes = character.as_bytes();
    if bytes.len() != 1 {
        return None;
    }
    let b = bytes[0];
    if b >= 97 && b <= 122 {
        Some(b - 32 - 64)
    } else if b >= 65 && b <= 90 {
        Some(b - 64)
    } else {
        None
    }
}


/// The bytes a key sends to the shell, if it sends any.
fn key_bytes(text: Option<String>, key: &Key, modifiers: Modifiers) -> (bytes: Option<Vec<u8>>)
    ensures
        match spec_key_bytes(text, *key, modifiers) {
            Some(b) => bytes is Some && bytes.unwrap()@ == b,
            None => bytes is None,
        },
{
    match key {
        Key::Named(NamedKey::Enter) => Some(vec![13u8]),
        Key::Named(NamedKey::Backspace) => Some(vec![127u8]),
        Key::Named(NamedKey::Tab) => Some(vec![9u8]),
        Key::Named(NamedKey::Escape) => Some(vec![27u8]),
        Key::Named(NamedKey::ArrowUp) => Some(vec![27u8, 91u8, 65u8]),
        Key::Named(NamedKey::ArrowDown) => Some(vec![27u8, 91u8, 66u8]),
        Key::Named(NamedKey::ArrowRight) => Some(vec![27u8, 91u8, 67u8]),
        Key::Named(NamedKey::ArrowLeft) => Some(vec![27u8, 91u8, 68u8]),
        Key::Character(s) if modifiers.control => match control_character(s.as_str()) {
            Some(b) => Some(vec![b]),
            None => None,
        },
        _ => match text {
            Some(t) => Some(t.as_str().as_bytes_vec()),
            None => None,
        },
    }
}

/// What the application does for a key event: nothing for a release; in copy mode, the
/// copy-mode command; else a shortcut, or else the bytes the key sends to the shell.
pub fn handle_key(
    text: Option<String>,
    logical_key: &Key,
    key_state: KeyState,
    modifiers: Modifiers,
    copy_mode_active: bool,
) -> (command: AppCommand)
    ensures
        key_state == KeyState::Released ==> command == AppCommand::Noop,
        key_state == KeyState::Pressed && copy_mode_active ==> command == match spec_copy_mode_command(
            *logical_key,
            modifiers,
        ) {
            Some(c) => AppCommand::CopyMode(c),
            None => AppCommand::Noop,
        },
        key_state == KeyState::Pressed && !copy_mode_active && spec_shortcut_command(*logical_key, modifiers) is Some
            ==> command == spec_shortcut_command(*logical_key, modifiers).unwrap(),
        key_state == KeyState::Pressed && !copy_mode_active && spec_shortcut_command(*logical_key, modifiers) is None
            ==> match spec_key_bytes(text, *logical_key, modifiers) {
            Some(b) => command matches AppCommand::SendTerminalInput(sent) && sent@ == b,
            None => command == AppCommand::Noop,
        },
{
    if key_state != KeyState::Pressed {
        return AppCommand::Noop;
    }
    if copy_mode_active {
        return match copy_mode_command(logical_key, modifiers) {
            Some(c) => AppCommand::CopyMode(c),
            None => AppCommand::Noop,
        };
    }
    match shortcut_command(logical_key, modifiers) {
        Some(command) => {
            return command;
        },
        None => {},
    }
    match key_bytes(text, logical_key, modifiers) {
        Some(bytes) => AppCommand::SendTerminalInput(bytes),
        None => AppCommand::Noop,
    }
}

} // verus!
