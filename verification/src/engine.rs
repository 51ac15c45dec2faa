//! The dispatch engine: owns the modifier tracker and the display buffer and
//! drives them event by event. A modifier change only updates the tracker; a
//! key press is resolved under the current snapshot and, if a glyph comes
//! back, appended to the buffer.

use vstd::prelude::*;
use crate::buffer::{append_model, DisplayBuffer};
use crate::events::Event;
use crate::keymap::Profile;
use crate::modifiers::ModifierSet;
use crate::resolve::{resolve, spec_resolve};

verus! {

/// The mathematical state of an engine: the selected profile, the held
/// modifiers and the scalars on display.
#[verifier::ext_equal]
pub ghost struct EngineView {
    pub profile: Profile,
    pub mods: ModifierSet,
    pub text: Seq<char>,
}

/// The engine state after one event is dispatched.
pub open spec fn spec_step(v: EngineView, e: Event) -> EngineView {
    match e {
        Event::Modifier { key, pressed } => EngineView { mods: v.mods.spec_set(key, pressed), ..v },
        Event::Key(k) => match spec_resolve(v.profile, k, v.mods) {
            Some(glyph) => EngineView {
                text: append_model(v.text, glyph, v.profile.spec_max_chars()),
                ..v
            },
            None => v,
        },
    }
}

/// The engine state after a whole sequence of events is dispatched in order.
pub open spec fn spec_step_all(v: EngineView, events: Seq<Event>) -> EngineView
    decreases events.len(),
{
    if events.len() == 0 {
        v
    } else {
        spec_step(spec_step_all(v, events.drop_last()), events.last())
    }
}

/// The engine: a modifier tracker and a display buffer, owned by the single
/// frame-loop consumer and updated only through `handle`.
pub struct Engine {
    profile: Profile,
    modifiers: ModifierSet,
    buffer: DisplayBuffer,
}

impl View for Engine {
    type V = EngineView;

    closed spec fn view(&self) -> EngineView {
        EngineView { profile: self.profile, mods: self.modifiers, text: self.buffer.contents() }
    }
}

impl Engine {
    /// The buffer's capacity is the one the profile selects, and its length
    /// never exceeds it.
    pub closed spec fn wf(self) -> bool {
        &&& self.buffer.wf()
        &&& self.buffer.cap() == self.profile.spec_max_chars()
    }

    /// Creates an engine for `profile` with no modifier held and an empty
    /// display.
    pub fn new(profile: Profile) -> (engine: Engine)
        ensures
            engine.wf(),
            engine@.profile == profile,
            engine@.mods == ModifierSet::spec_empty(),
            engine@.text == Seq::<char>::empty(),
    {
        Engine {
            profile,
            modifiers: ModifierSet::new(),
            buffer: DisplayBuffer::new(profile.max_chars()),
        }
    }

    /// The current modifier snapshot, read once per frame by the renderer.
    pub fn modifiers(&self) -> (m: ModifierSet)
        ensures
            m == self@.mods,
    {
        self.modifiers
    }

    /// The scalars currently on display, oldest first, read once per frame by
    /// the renderer.
    pub fn text(&self) -> (v: &Vec<char>)
        ensures
            v@ == self@.text,
    {
        self.buffer.chars()
    }

    /// Dispatches one event: a modifier change overwrites the tracked bit and
    /// leaves the display untouched; a key press appends the resolved glyph,
    /// if there is one, evicting the oldest scalars past capacity.
    pub fn handle(&mut self, event: Event)
        requires
            old(self).wf(),
        ensures
            final(self).wf(),
            final(self)@ == spec_step(old(self)@, event),
    {
        match event {
            Event::Modifier { key, pressed } => {
                self.modifiers.set(key, pressed);
            },
            Event::Key(k) => {
                let glyph = resolve(self.profile, k, &self.modifiers);
                match glyph {
                    Some(g) => {
                        self.buffer.append(&g);
                    },
                    None => {},
                }
            },
        }
        proof {
            assert(self@ =~= spec_step(old(self)@, event));
        }
    }

    /// Dispatches every queued event, oldest first: the one drain the frame
    /// loop performs per rendered frame.
    pub fn handle_all(&mut self, events: &Vec<Event>)
        requires
            old(self).wf(),
        ensures
            final(self).wf(),
            final(self)@ == spec_step_all(old(self)@, events@),
    {
        let mut i: usize = 0;
        while i < events.len()
            invariant
                0 <= i <= events.len(),
                self.wf(),
                self@ == spec_step_all(old(self)@, events@.take(i as int)),
            decreases events.len() - i,
        {
            self.handle(events[i]);
            proof {
                assert(events@.take(i + 1).drop_last() =~= events@.take(i as int));
                assert(events@.take(i + 1).last() == events@[i as int]);
            }
            i = i + 1;
        }
        proof {
            assert(events@.take(events@.len() as int) =~= events@);
        }
    }
}

} // verus!
