//! Keyboard events as plain values: the key codes, modifiers and event kinds
//! that the input logic reads. The terminal backend's events are converted
//! into these by the application.

use vstd::prelude::*;

verus! {

/// A key on the keyboard.
#[derive(Debug, Clone, Copy, PartialEq, Eq, Hash, Structural)]
pub enum KeyCode {
    Backspace,
    Enter,
    Left,
    Right,
    Up,
    Down,
    Home,
    End,
    PageUp,
    PageDown,
    Tab,
    BackTab,
    Delete,
    Insert,
    /// Function key `F(n)`.
    F(u8),
    /// A character key.
    Char(char),
    Null,
    Esc,
    CapsLock,
    ScrollLock,
    NumLock,
    PrintScreen,
    Pause,
    Menu,
    KeypadBegin,
    /// A media key.
    Media,
    /// A lone modifier key.
    Modifier,
}

/// The modifier keys held with a key press.
#[derive(Debug, Clone, Copy, PartialEq, Eq, Hash, Structural)]
pub struct KeyModifiers {
    pub shift: bool,
    pub control: bool,
    pub alt: bool,
    pub super_key: bool,
    pub hyper: bool,
    pub meta: bool,
}

impl KeyModifiers {
    /// No modifier held.
    pub open spec fn spec_none() -> KeyModifiers {
        KeyModifiers {
            shift: false,
            control: false,
            alt: false,
            super_key: false,
            hyper: false,
            meta: false,
        }
    }

    /// No modifier held.
    pub fn none() -> (res: KeyModifiers)
        ensures
            res == Self::spec_none(),
    {
        KeyModifiers {
            shift: false,
            control: false,
            alt: false,
            super_key: false,
            hyper: false,
            meta: false,
        }
    }

    /// Only the Control modifier held.
    pub fn ctrl() -> (res: KeyModifiers)
        ensures
            res == (KeyModifiers { control: true, ..Self::spec_none() }),
    {
        KeyModifiers {
            shift: false,
            control: true,
            alt: false,
            super_key: false,
            hyper: false,
            meta: false,
        }
    }
}

/// Whether a key event is a press, an auto-repeat or a release.
#[derive(Debug, Clone, Copy, PartialEq, Eq, Hash, Structural)]
pub enum KeyEventKind {
    Press,
    Repeat,
    Release,
}

/// One keyboard event.
#[derive(Debug, Clone, Copy, PartialEq, Eq, Hash, Structural)]
pub struct KeyEvent {
    pub code: KeyCode,
    pub modifiers: KeyModifiers,
    pub kind: KeyEventKind,
}

impl KeyEvent {
    /// A key press of `code` with `modifiers`.
    pub fn new(code: KeyCode, modifiers: KeyModifiers) -> (res: KeyEvent)
        ensures
            res.code == code,
            res.modifiers == modifiers,
            res.kind == KeyEventKind::Press,
    {
        KeyEvent { code, modifiers, kind: KeyEventKind::Press }
    }
}

/// Whether a key event should be forwarded to the application: releases
/// are dropped, so that terminals reporting both press and release do not
/// process every keystroke twice.
pub fn should_forward_key(kind: KeyEventKind) -> (res: bool)
    ensures
        res == (kind != KeyEventKind::Release),
{
    !matches!(kind, KeyEventKind::Release)
}

} // verus!
