//! Keyboard and mouse input records.
use vstd::prelude::*;

verus! {

/// A keyboard event.
#[derive(Debug, PartialEq, Eq, Structural, Clone, Copy, Hash)]
pub struct KeyEvent {
    /// The key pressed.
    pub code: KeyCode,
    /// The modifier held with it. A modifier never stands on its own.
    pub modifier: KeyModifier,
}

impl KeyEvent {
    pub fn new(code: KeyCode, modifier: KeyModifier) -> (r: Self)
        ensures
            r == (KeyEvent { code, modifier }),
    {
        KeyEvent { code, modifier }
    }
}

/// A key modifier. Shift is not one: it shows in the key itself.
#[derive(Debug, PartialEq, Eq, Structural, Clone, Copy, Hash)]
pub enum KeyModifier {
    Alt,
    Ctrl,
    /// No modifier held.
    NoModifier,
}

/// A key code.
#[derive(Debug, PartialEq, Eq, Structural, Clone, Copy, Hash)]
pub enum KeyCode {
    Backspace,
    Left,
    Right,
    Up,
    Down,
    Home,
    End,
    PageUp,
    PageDown,
    BackTab,
    Delete,
    Insert,
    /// A function key, 1 through 12.
    F(u8),
    /// A character key.
    Char(char),
    Null,
    Esc,
}

/// A mouse event at a cell.
#[derive(Debug, Copy, Clone, PartialEq, Eq, Structural, Hash)]
pub struct MouseEvent {
    pub x: u32,
    pub y: u32,
    pub mousetype: MouseType,
}

/// The kind of a mouse event.
#[derive(Debug, Copy, Clone, PartialEq, Eq, Structural, Hash)]
pub enum MouseType {
    Left,
    Right,
    Middle,
    WheelUp,
    WheelDown,
    Release,
    /// Movement with the left button held.
    Hold,
}

/// A key code in the record shape where every payload is a named field.
#[derive(Debug, PartialEq, Eq, Structural, Clone, Copy, Hash)]
pub enum KeyCodeBetterSerde {
    Backspace,
    Left,
    Right,
    Up,
    Down,
    Home,
    End,
    PageUp,
    PageDown,
    BackTab,
    Delete,
    Insert,
    F { value: u8 },
    Char { value: char },
    Null,
    Esc,
}

/// A keyboard event whose key code is in the named-field record shape.
#[derive(Debug, PartialEq, Eq, Structural, Clone, Copy, Hash)]
pub struct KeyEventBetterSerde {
    pub code: KeyCodeBetterSerde,
    pub modifier: KeyModifier,
}

/// The key code that a named-field key code stands for.
pub open spec fn code_of_record(v: KeyCodeBetterSerde) -> KeyCode {
    match v {
        KeyCodeBetterSerde::Backspace => KeyCode::Backspace,
        KeyCodeBetterSerde::Left => KeyCode::Left,
        KeyCodeBetterSerde::Right => KeyCode::Right,
        KeyCodeBetterSerde::Up => KeyCode::Up,
        KeyCodeBetterSerde::Down => KeyCode::Down,
        KeyCodeBetterSerde::Home => KeyCode::Home,
        KeyCodeBetterSerde::End => KeyCode::End,
        KeyCodeBetterSerde::PageUp => KeyCode::PageUp,
        KeyCodeBetterSerde::PageDown => KeyCode::PageDown,
        KeyCodeBetterSerde::BackTab => KeyCode::BackTab,
        KeyCodeBetterSerde::Delete => KeyCode::Delete,
        KeyCodeBetterSerde::Insert => KeyCode::Insert,
        KeyCodeBetterSerde::F { value } => KeyCode::F(value),
        KeyCodeBetterSerde::Char { value } => KeyCode::Char(value),
        KeyCodeBetterSerde::Null => KeyCode::Null,
        KeyCodeBetterSerde::Esc => KeyCode::Esc,
    }
}

/// The named-field key code of a key code.
pub open spec fn record_of_code(v: KeyCode) -> KeyCodeBetterSerde {
    match v {
        KeyCode::Backspace => KeyCodeBetterSerde::Backspace,
        KeyCode::Left => KeyCodeBetterSerde::Left,
        KeyCode::Right => KeyCodeBetterSerde::Right,
        KeyCode::Up => KeyCodeBetterSerde::Up,
        KeyCode::Down => KeyCodeBetterSerde::Down,
        KeyCode::Home => KeyCodeBetterSerde::Home,
        KeyCode::End => KeyCodeBetterSerde::End,
        KeyCode::PageUp => KeyCodeBetterSerde::PageUp,
        KeyCode::PageDown => KeyCodeBetterSerde::PageDown,
        KeyCode::BackTab => KeyCodeBetterSerde::BackTab,
        KeyCode::Delete => KeyCodeBetterSerde::Delete,
        KeyCode::Insert => KeyCodeBetterSerde::Insert,
        KeyCode::F(value) => KeyCodeBetterSerde::F { value },
        KeyCode::Char(value) => KeyCodeBetterSerde::Char { value },
        KeyCode::Null => KeyCodeBetterSerde::Null,
        KeyCode::Esc => KeyCodeBetterSerde::Esc,
    }
}

impl From<KeyCodeBetterSerde> for KeyCode {
    fn from(value: KeyCodeBetterSerde) -> (r: Self) {
        match value {
            KeyCodeBetterSerde::Backspace => KeyCode::Backspace,
            KeyCodeBetterSerde::Left => KeyCode::Left,
            KeyCodeBetterSerde::Right => KeyCode::Right,
            KeyCodeBetterSerde::Up => KeyCode::Up,
            KeyCodeBetterSerde::Down => KeyCode::Down,
            KeyCodeBetterSerde::Home => KeyCode::Home,
            KeyCodeBetterSerde::End => KeyCode::End,
            KeyCodeBetterSerde::PageUp => KeyCode::PageUp,
            KeyCodeBetterSerde::PageDown => KeyCode::PageDown,
            KeyCodeBetterSerde::BackTab => KeyCode::BackTab,
            KeyCodeBetterSerde::Delete => KeyCode::Delete,
            KeyCodeBetterSerde::Insert => KeyCode::Insert,
            KeyCodeBetterSerde::F { value } => KeyCode::F(value),
            KeyCodeBetterSerde::Char { value } => KeyCode::Char(value),
            KeyCodeBetterSerde::Null => KeyCode::Null,
            KeyCodeBetterSerde::Esc => KeyCode::Esc,
        }
    }
}

impl vstd::std_specs::convert::FromSpecImpl<KeyCodeBetterSerde> for KeyCode {
    open spec fn obeys_from_spec() -> bool {
        true
    }

    open spec fn from_spec(v: KeyCodeBetterSerde) -> Self {
        code_of_record(v)
    }
}

impl From<KeyCode> for KeyCodeBetterSerde {
    fn from(value: KeyCode) -> (r: Self) {
        match value {
            KeyCode::Backspace => KeyCodeBetterSerde::Backspace,
            KeyCode::Left => KeyCodeBetterSerde::Left,
            KeyCode::Right => KeyCodeBetterSerde::Right,
            KeyCode::Up => KeyCodeBetterSerde::Up,
            KeyCode::Down => KeyCodeBetterSerde::Down,
            KeyCode::Home => KeyCodeBetterSerde::Home,
            KeyCode::End => KeyCodeBetterSerde::End,
            KeyCode::PageUp => KeyCodeBetterSerde::PageUp,
            KeyCode::PageDown => KeyCodeBetterSerde::PageDown,
            KeyCode::BackTab => KeyCodeBetterSerde::BackTab,
            KeyCode::Delete => KeyCodeBetterSerde::Delete,
            KeyCode::Insert => KeyCodeBetterSerde::Insert,
            KeyCode::F(value) => KeyCodeBetterSerde::F { value },
            KeyCode::Char(value) => KeyCodeBetterSerde::Char { value },
            KeyCode::Null => KeyCodeBetterSerde::Null,
            KeyCode::Esc => KeyCodeBetterSerde::Esc,
        }
    }
}

impl vstd::std_specs::convert::FromSpecImpl<KeyCode> for KeyCodeBetterSerde {
    open spec fn obeys_from_spec() -> bool {
        true
    }

    open spec fn from_spec(v: KeyCode) -> Self {
        record_of_code(v)
    }
}

impl From<KeyEventBetterSerde> for KeyEvent {
    fn from(value: KeyEventBetterSerde) -> (r: Self) {
        KeyEvent { code: KeyCode::from(value.code), modifier: value.modifier }
    }
}

impl vstd::std_specs::convert::FromSpecImpl<KeyEventBetterSerde> for KeyEvent {
    open spec fn obeys_from_spec() -> bool {
        true
    }

    open spec fn from_spec(v: KeyEventBetterSerde) -> Self {
        KeyEvent { code: code_of_record(v.code), modifier: v.modifier }
    }
}

impl From<KeyEvent> for KeyEventBetterSerde {
    fn from(value: KeyEvent) -> (r: Self) {
        KeyEventBetterSerde { code: KeyCodeBetterSerde::from(value.code), modifier: value.modifier }
    }
}

impl vstd::std_specs::convert::FromSpecImpl<KeyEvent> for KeyEventBetterSerde {
    open spec fn obeys_from_spec() -> bool {
        true
    }

    open spec fn from_spec(v: KeyEvent) -> Self {
        KeyEventBetterSerde { code: record_of_code(v.code), modifier: v.modifier }
    }
}

/// Converting a key code to the named-field shape and back gives it unchanged,
/// and so does the way round from the named-field shape.
pub proof fn lemma_key_code_round_trip(c: KeyCode, r: KeyCodeBetterSerde)
    ensures
        code_of_record(record_of_code(c)) == c,
        record_of_code(code_of_record(r)) == r,
{
}

} // verus!
