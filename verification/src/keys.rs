//! Key presses as the front end reports them, and the bytes that a key sends
//! to a remote peer.

use vstd::prelude::*;

verus! {

/// The modifier bit of the control key in `KeyEvent::modifiers`.
pub const CONTROL: u8 = 0b0000_0010;

/// A key of the keyboard.
#[derive(Clone, Copy, Debug, PartialEq, Eq, Structural)]
pub enum KeyCode {
    Backspace,
    Enter,
    Left,
    Right,
    Up,
    Down,
    Home,
    End,
    PageUp,
    PageDown,
    Tab,
    BackTab,
    Delete,
    Insert,
    F(u8),
    Char(char),
    Null,
    Esc,
    CapsLock,
    ScrollLock,
    NumLock,
    PrintScreen,
    Pause,
    Menu,
    KeypadBegin,
    Media,
    Modifier,
}

/// What happened to a key.
#[derive(Clone, Copy, Debug, PartialEq, Eq, Structural)]
pub enum KeyEventKind {
    Press,
    Repeat,
    Release,
}

/// One report of the keyboard: the key, the modifier bits held with it, and
/// what happened to it.
#[derive(Clone, Copy, Debug, PartialEq, Eq, Structural)]
pub struct KeyEvent {
    pub code: KeyCode,
    pub modifiers: u8,
    pub kind: KeyEventKind,
}

/// A pressed key has no bytes to send for it.
#[derive(Clone, Copy, Debug, PartialEq, Eq, Structural)]
pub enum KeyError {
    NoEncoding(KeyCode),
}

/// The single byte that stands for a character: its code point, cut to the
/// low eight bits.
pub open spec fn byte_of_char(c: char) -> u8 {
    (c as u32 % 256) as u8
}

/// The bytes that a key sends to the peer: backspace sends the control byte
/// 8, enter a line feed, a character key its single byte. No other key has
/// an encoding.
pub open spec fn key_encoding(code: KeyCode) -> Option<Seq<u8>> {
    match code {
        KeyCode::Backspace => Some(seq![8u8]),
        KeyCode::Enter => Some(seq![10u8]),
        KeyCode::Char(c) => Some(seq![byte_of_char(c)]),
        _ => None,
    }
}

/// The view of bytes that may be absent.
pub open spec fn bytes_view(bytes: Option<Vec<u8>>) -> Option<Seq<u8>> {
    match bytes {
        Some(v) => Some(v@),
        None => None,
    }
}

/// The bytes that a key sends to the peer, if it has any.
pub fn key_bytes(code: KeyCode) -> (bytes: Option<Vec<u8>>)
    ensures
        bytes_view(bytes) == key_encoding(code),
{
    match code {
        KeyCode::Backspace => {
            let bytes = vec![8u8];
            assert(bytes@ =~= seq![8u8]);
            Some(bytes)
        },
        KeyCode::Enter => {
            let bytes = vec![10u8];
            assert(bytes@ =~= seq![10u8]);
            Some(bytes)
        },
        KeyCode::Char(c) => {
            let byte: u8 = (c as u32 % 256) as u8;
            let bytes = vec![byte];
            assert(bytes@ =~= seq![byte_of_char(c)]);
            Some(bytes)
        },
        _ => None,
    }
}

} // verus!
