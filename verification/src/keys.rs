//! Key and mouse events, and the bytes a key press sends to the child.
//!
//! The events here carry what the runner reads of a terminal event: the key,
//! the modifiers held with it, and whether it was pressed or released.  The
//! encoding follows the conventions of a VT100-style terminal: control
//! characters for `Ctrl` chords, escape sequences for the navigation keys.

use vstd::prelude::*;
use vstd::utf8::*;

verus! {

/// A key of the keyboard.
#[derive(Debug, Clone, Copy, PartialEq, Eq, Structural)]
pub enum KeyCode {
    Backspace,
    Enter,
    Left,
    Right,
    Up,
    Down,
    Home,
    End,
    PageUp,
    PageDown,
    Tab,
    BackTab,
    Delete,
    Insert,
    /// A function key, with its number.
    F(u8),
    /// A key that produces a character.
    Char(char),
    Null,
    Esc,
    /// Any key that the runner has no use for.
    Other,
}

/// The modifier keys held during an event.
#[derive(Debug, Clone, Copy, PartialEq, Eq, Structural)]
pub struct KeyModifiers {
    pub shift: bool,
    pub control: bool,
    pub alt: bool,
}

impl KeyModifiers {
    /// No modifier.
    pub fn none() -> (modifiers: KeyModifiers)
        ensures
            modifiers == (KeyModifiers { shift: false, control: false, alt: false }),
    {
        KeyModifiers { shift: false, control: false, alt: false }
    }

    /// `Ctrl` alone.
    pub fn ctrl() -> (modifiers: KeyModifiers)
        ensures
            modifiers == (KeyModifiers { shift: false, control: true, alt: false }),
    {
        KeyModifiers { shift: false, control: true, alt: false }
    }
}

/// Whether a key went down, is held, or came up.
#[derive(Debug, Clone, Copy, PartialEq, Eq, Structural)]
pub enum KeyEventKind {
    Press,
    Repeat,
    Release,
}

/// A key event.
#[derive(Debug, Clone, Copy, PartialEq, Eq, Structural)]
pub struct KeyEvent {
    pub code: KeyCode,
    pub modifiers: KeyModifiers,
    pub kind: KeyEventKind,
}

impl KeyEvent {
    /// A press of `code` with `modifiers` held.
    pub fn new(code: KeyCode, modifiers: KeyModifiers) -> (event: KeyEvent)
        ensures
            event == (KeyEvent { code, modifiers, kind: KeyEventKind::Press }),
    {
        KeyEvent { code, modifiers, kind: KeyEventKind::Press }
    }
}

/// What the mouse did.
#[derive(Debug, Clone, Copy, PartialEq, Eq, Structural)]
pub enum MouseEventKind {
    ScrollUp,
    ScrollDown,
    /// A button, a move or a sideways scroll.
    Other,
}

/// A mouse event.
#[derive(Debug, Clone, Copy, PartialEq, Eq, Structural)]
pub struct MouseEvent {
    pub kind: MouseEventKind,
}

/// The code point of `code` with an ASCII lower-case letter turned into its
/// upper-case form.
pub open spec fn ascii_uppercase(code: u32) -> u32 {
    if 0x61 <= code <= 0x7A {
        (code - 0x20) as u32
    } else {
        code
    }
}

/// The control character that `Ctrl` makes of the character with code point
/// `code`, where it makes one.  Letters count in either case.
pub open spec fn control_byte(code: u32) -> Option<u8> {
    let upper = ascii_uppercase(code);
    if upper == 0x32 || upper == 0x40 || upper == 0x20 {
        // '2', '@', space
        Some(0x00u8)
    } else if upper == 0x33 || upper == 0x5B {
        // '3', '['
        Some(0x1Bu8)
    } else if upper == 0x34 || upper == 0x5C {
        // '4', '\'
        Some(0x1Cu8)
    } else if upper == 0x35 || upper == 0x5D {
        // '5', ']'
        Some(0x1Du8)
    } else if upper == 0x36 || upper == 0x5E {
        // '6', '^'
        Some(0x1Eu8)
    } else if upper == 0x37 || upper == 0x2D || upper == 0x5F {
        // '7', '-', '_'
        Some(0x1Fu8)
    } else if 0x41 <= upper <= 0x5F {
        // 'A' ..= '_'
        Some((upper - 0x40) as u8)
    } else {
        None
    }
}

/// The bytes that a key press sends to the child; `None` where the key
/// sends nothing.
pub open spec fn key_bytes(key: KeyEvent) -> Option<Seq<u8>> {
    match key.code {
        KeyCode::Char(c) => {
            if key.modifiers.control {
                match control_byte(c as u32) {
                    Some(byte) => Some(seq![byte]),
                    None => None,
                }
            } else {
                Some(encode_scalar(c as u32))
            }
        },
        KeyCode::Enter => Some(seq![0x0Au8]),
        KeyCode::Backspace => Some(seq![0x7Fu8]),
        KeyCode::Left => Some(seq![0x1Bu8, 0x5Bu8, 0x44u8]),
        KeyCode::Right => Some(seq![0x1Bu8, 0x5Bu8, 0x43u8]),
        KeyCode::Up => Some(seq![0x1Bu8, 0x5Bu8, 0x41u8]),
        KeyCode::Down => Some(seq![0x1Bu8, 0x5Bu8, 0x42u8]),
        KeyCode::Home => Some(seq![0x1Bu8, 0x5Bu8, 0x48u8]),
        KeyCode::End => Some(seq![0x1Bu8, 0x5Bu8, 0x46u8]),
        KeyCode::Tab => Some(seq![0x09u8]),
        KeyCode::BackTab => Some(seq![0x1Bu8, 0x5Bu8, 0x5Au8]),
        KeyCode::Delete => Some(seq![0x1Bu8, 0x5Bu8, 0x33u8, 0x7Eu8]),
        KeyCode::Insert => Some(seq![0x1Bu8, 0x5Bu8, 0x32u8, 0x7Eu8]),
        KeyCode::Esc => Some(seq![0x1Bu8]),
        _ => None,
    }
}

/// The UTF-8 encoding of `c`.
pub fn encode_char(c: char) -> (bytes: Vec<u8>)
    ensures
        bytes@ == encode_scalar(c as u32),
{
    let v: u32 = c as u32;
    if v <= 0x7F {
        let b0: u8 = (v & 0x7F) as u8;
        vec![b0]
    } else if v <= 0x7FF {
        let b0: u8 = 0xC0 | ((v >> 6) & 0x1F) as u8;
        let b1: u8 = 0x80 | (v & 0x3F) as u8;
        vec![b0, b1]
    } else if v <= 0xFFFF {
        let b0: u8 = 0xE0 | ((v >> 12) & 0x0F) as u8;
        let b1: u8 = 0x80 | ((v >> 6) & 0x3F) as u8;
        let b2: u8 = 0x80 | (v & 0x3F) as u8;
        vec![b0, b1, b2]
    } else {
        let b0: u8 = 0xF0 | ((v >> 18) & 0x7) as u8;
        let b1: u8 = 0x80 | ((v >> 12) & 0x3F) as u8;
        let b2: u8 = 0x80 | ((v >> 6) & 0x3F) as u8;
        let b3: u8 = 0x80 | (v & 0x3F) as u8;
        vec![b0, b1, b2, b3]
    }
}

/// The control character for `Ctrl` held with the character `c`.
pub fn control_character(c: char) -> (byte: Option<u8>)
    ensures
        byte == control_byte(c as u32),
{
    let code: u32 = c as u32;
    let upper: u32 = if 0x61 <= code && code <= 0x7A {
        code - 0x20
    } else {
        code
    };
    if upper == 0x32 || upper == 0x40 || upper == 0x20 {
        Some(0x00)
    } else if upper == 0x33 || upper == 0x5B {
        Some(0x1B)
    } else if upper == 0x34 || upper == 0x5C {
        Some(0x1C)
    } else if upper == 0x35 || upper == 0x5D {
        Some(0x1D)
    } else if upper == 0x36 || upper == 0x5E {
        Some(0x1E)
    } else if upper == 0x37 || upper == 0x2D || upper == 0x5F {
        Some(0x1F)
    } else if 0x41 <= upper && upper <= 0x5F {
        Some((upper - 0x40) as u8)
    } else {
        None
    }
}

/// The bytes that `key` sends to the child, `None` where it sends nothing.
///
/// A character key without `Ctrl` sends its UTF-8 encoding.  With `Ctrl` it
/// sends the control character of the chord, and nothing where the chord has
/// none.  `Enter` sends a line feed, `Backspace` sends DEL, and the
/// navigation keys send their escape sequences whatever modifiers are held.
pub fn passthrough_bytes(key: &KeyEvent) -> (bytes: Option<Vec<u8>>)
    ensures
        bytes is Some == key_bytes(*key) is Some,
        bytes matches Some(sent) ==> key_bytes(*key) == Some(sent@),
{
    let bytes: Vec<u8> = match key.code {
        KeyCode::Char(c) => {
            if key.modifiers.control {
                match control_character(c) {
                    Some(byte) => vec![byte],
                    None => {
                        return None;
                    },
                }
            } else {
                encode_char(c)
            }
        },
        KeyCode::Enter => vec![0x0A],
        KeyCode::Backspace => vec![0x7F],
        KeyCode::Left => vec![0x1B, 0x5B, 0x44],
        KeyCode::Right => vec![0x1B, 0x5B, 0x43],
        KeyCode::Up => vec![0x1B, 0x5B, 0x41],
        KeyCode::Down => vec![0x1B, 0x5B, 0x42],
        KeyCode::Home => vec![0x1B, 0x5B, 0x48],
        KeyCode::End => vec![0x1B, 0x5B, 0x46],
        KeyCode::Tab => vec![0x09],
        KeyCode::BackTab => vec![0x1B, 0x5B, 0x5A],
        KeyCode::Delete => vec![0x1B, 0x5B, 0x33, 0x7E],
        KeyCode::Insert => vec![0x1B, 0x5B, 0x32, 0x7E],
        KeyCode::Esc => vec![0x1B],
        _ => {
            return None;
        },
    };
    Some(bytes)
}

} // verus!
