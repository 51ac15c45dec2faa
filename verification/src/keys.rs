//! Physical key identifiers the engine understands: the keys covered by at
//! least one glyph table plus the four designated modifier keys.

use vstd::prelude::*;
use crate::modifiers::Modifier;

verus! {

/// A physical key on the keyboard, identified by position, not by the text it
/// produces. Keys outside this set never reach the engine: they resolve to no
/// glyph and are dropped at the input boundary.
#[derive(Clone, Copy, Debug, PartialEq, Eq, Structural)]
pub enum Key {
    BackQuote,
    BackSlash,
    Backspace,
    Comma,
    Dot,
    DownArrow,
    Equal,
    Escape,
    F1,
    F2,
    F3,
    F4,
    F5,
    F6,
    F7,
    F8,
    F9,
    F10,
    F11,
    F12,
    KeyA,
    KeyB,
    KeyC,
    KeyD,
    KeyE,
    KeyF,
    KeyG,
    KeyH,
    KeyI,
    KeyJ,
    KeyK,
    KeyL,
    KeyM,
    KeyN,
    KeyO,
    KeyP,
    KeyQ,
    KeyR,
    KeyS,
    KeyT,
    KeyU,
    KeyV,
    KeyW,
    KeyX,
    KeyY,
    KeyZ,
    LeftArrow,
    LeftBracket,
    Minus,
    Num0,
    Num1,
    Num2,
    Num3,
    Num4,
    Num5,
    Num6,
    Num7,
    Num8,
    Num9,
    PrintScreen,
    Quote,
    Return,
    RightArrow,
    RightBracket,
    SemiColon,
    Slash,
    Space,
    Tab,
    UpArrow,
    ControlLeft,
    ShiftLeft,
    AltGr,
    MetaLeft,
}

impl Key {
    /// The modifier this key stands for, if it is one of the four designated
    /// modifier keys. Such keys are consumed into modifier transitions by the
    /// dispatcher and never reach the glyph resolver.
    pub open spec fn spec_modifier(self) -> Option<Modifier> {
        match self {
            Key::ControlLeft => Some(Modifier::Control),
            Key::ShiftLeft => Some(Modifier::Shift),
            Key::AltGr => Some(Modifier::Alt),
            Key::MetaLeft => Some(Modifier::Meta),
            _ => None,
        }
    }

    /// Returns the modifier this key stands for, if it is a modifier key.
    pub fn modifier(self) -> (m: Option<Modifier>)
        ensures
            m == self.spec_modifier(),
    {
        match self {
            Key::ControlLeft => Some(Modifier::Control),
            Key::ShiftLeft => Some(Modifier::Shift),
            Key::AltGr => Some(Modifier::Alt),
            Key::MetaLeft => Some(Modifier::Meta),
            _ => None,
        }
    }
}

} // verus!
