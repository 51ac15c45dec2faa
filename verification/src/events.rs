//! Raw key transitions and their classification into engine events: modifier
//! keys become modifier-change events on both edges, every other key becomes
//! a key event on press only.

use vstd::prelude::*;
use crate::keys::Key;
use crate::modifiers::Modifier;

verus! {

/// One event the engine consumes: either a change of a modifier's held state,
/// or a press of a non-modifier key to be resolved into a glyph.
#[derive(Clone, Copy, Debug, PartialEq, Eq, Structural)]
pub enum Event {
    Modifier { key: Modifier, pressed: bool },
    Key(Key),
}

/// The event a raw transition of `key` in direction `pressed` turns into.
/// The four designated modifier keys yield a modifier change on press and on
/// release; any other key yields a key event on press and nothing on release.
pub open spec fn spec_classify(key: Key, pressed: bool) -> Option<Event> {
    match key.spec_modifier() {
        Some(m) => Some(Event::Modifier { key: m, pressed }),
        None => if pressed {
            Some(Event::Key(key))
        } else {
            None
        },
    }
}

/// Classifies one raw key transition into the event the engine consumes, if
/// any. A release of a non-modifier key produces nothing.
pub fn classify(key: Key, pressed: bool) -> (e: Option<Event>)
    ensures
        e == spec_classify(key, pressed),
{
    match key.modifier() {
        Some(m) => Some(Event::Modifier { key: m, pressed }),
        None => if pressed {
            Some(Event::Key(key))
        } else {
            None
        },
    }
}

} // verus!
