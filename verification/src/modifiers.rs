//! The modifier state tracker: four independent held/not-held bits, one per
//! modifier key, each overwritten unconditionally by the latest transition.

use vstd::prelude::*;

verus! {

/// One of the four tracked modifier keys.
#[derive(Clone, Copy, Debug, PartialEq, Eq, Structural)]
pub enum Modifier {
    Control,
    Shift,
    Alt,
    Meta,
}

impl Modifier {
    /// The indicator symbol shown for this modifier in the overlay.
    pub open spec fn spec_indicator(self) -> char {
        match self {
            Modifier::Control => '\u{2303}',
            Modifier::Shift => '\u{21e7}',
            Modifier::Alt => '\u{2325}',
            Modifier::Meta => '\u{2756}',
        }
    }

    /// Returns the indicator symbol shown for this modifier in the overlay.
    pub fn indicator(self) -> (c: char)
        ensures
            c == self.spec_indicator(),
    {
        match self {
            Modifier::Control => '\u{2303}',
            Modifier::Shift => '\u{21e7}',
            Modifier::Alt => '\u{2325}',
            Modifier::Meta => '\u{2756}',
        }
    }
}

/// Tracks which modifiers are currently held. Each bit reflects the most
/// recent transition seen for that modifier's key: no press order is
/// remembered and repeated presses are not counted.
#[verifier::ext_equal]
#[derive(Clone, Copy, Debug, PartialEq, Eq, Structural)]
pub struct ModifierSet {
    pub control: bool,
    pub shift: bool,
    pub alt: bool,
    pub meta: bool,
}

impl ModifierSet {
    /// The tracker state with no modifier held.
    pub open spec fn spec_empty() -> ModifierSet {
        ModifierSet { control: false, shift: false, alt: false, meta: false }
    }

    /// Whether `m` is held in this state.
    pub open spec fn spec_get(self, m: Modifier) -> bool {
        match m {
            Modifier::Control => self.control,
            Modifier::Shift => self.shift,
            Modifier::Alt => self.alt,
            Modifier::Meta => self.meta,
        }
    }

    /// The state after the bit for `m` is overwritten with `pressed`.
    pub open spec fn spec_set(self, m: Modifier, pressed: bool) -> ModifierSet {
        match m {
            Modifier::Control => ModifierSet { control: pressed, ..self },
            Modifier::Shift => ModifierSet { shift: pressed, ..self },
            Modifier::Alt => ModifierSet { alt: pressed, ..self },
            Modifier::Meta => ModifierSet { meta: pressed, ..self },
        }
    }

    /// Creates a tracker with every modifier released.
    pub fn new() -> (s: ModifierSet)
        ensures
            s == ModifierSet::spec_empty(),
    {
        ModifierSet { control: false, shift: false, alt: false, meta: false }
    }

    /// Overwrites the stored bit for `m` with `pressed`. A release with no
    /// matching prior press simply forces the bit false.
    pub fn set(&mut self, m: Modifier, pressed: bool)
        ensures
            *final(self) == old(self).spec_set(m, pressed),
            final(self).spec_get(m) == pressed,
    {
        match m {
            Modifier::Control => self.control = pressed,
            Modifier::Shift => self.shift = pressed,
            Modifier::Alt => self.alt = pressed,
            Modifier::Meta => self.meta = pressed,
        }
    }

    /// Reads the stored bit for `m`.
    pub fn get(&self, m: Modifier) -> (held: bool)
        ensures
            held == self.spec_get(m),
    {
        match m {
            Modifier::Control => self.control,
            Modifier::Shift => self.shift,
            Modifier::Alt => self.alt,
            Modifier::Meta => self.meta,
        }
    }
}

/// The state after a whole sequence of transitions for the single modifier
/// `m` is applied in order: each entry of `dirs` is the direction of one
/// transition (`true` for press, `false` for release).
pub open spec fn apply_transitions(s: ModifierSet, m: Modifier, dirs: Seq<bool>) -> ModifierSet
    decreases dirs.len(),
{
    if dirs.len() == 0 {
        s
    } else {
        apply_transitions(s.spec_set(m, dirs[0]), m, dirs.skip(1))
    }
}

/// For any sequence of press/release transitions for a single modifier, the
/// tracker's final bit for that modifier equals the direction of the last
/// transition, no matter how duplicate presses and releases interleave, and
/// the bits of the other modifiers are untouched.
pub proof fn lemma_last_transition_wins(s: ModifierSet, m: Modifier, dirs: Seq<bool>)
    requires
        dirs.len() > 0,
    ensures
        apply_transitions(s, m, dirs).spec_get(m) == dirs.last(),
        forall|m2: Modifier| m2 != m ==> apply_transitions(s, m, dirs).spec_get(m2) == s.spec_get(m2),
    decreases dirs.len(),
{
    let stepped = s.spec_set(m, dirs[0]);
    assert(apply_transitions(s, m, dirs) == apply_transitions(stepped, m, dirs.skip(1)));
    if dirs.len() == 1 {
        assert(dirs.skip(1).len() == 0);
        assert(apply_transitions(stepped, m, dirs.skip(1)) == stepped);
    } else {
        lemma_last_transition_wins(stepped, m, dirs.skip(1));
        assert(dirs.skip(1).last() == dirs.last());
    }
    assert forall|m2: Modifier| m2 != m implies apply_transitions(s, m, dirs).spec_get(m2)
        == s.spec_get(m2) by {
        assert(stepped.spec_get(m2) == s.spec_get(m2));
    }
}

/// Setting the same modifier to the same state twice in a row leaves the
/// tracker exactly as one call does; in particular a duplicate release is
/// harmless.
pub proof fn lemma_set_idempotent(s: ModifierSet, m: Modifier, pressed: bool)
    ensures
        s.spec_set(m, pressed).spec_set(m, pressed) == s.spec_set(m, pressed),
{
}

} // verus!
