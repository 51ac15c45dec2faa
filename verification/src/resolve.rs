//! The glyph resolver: a pure function from a physical key and the
//! instantaneous modifier snapshot to at most one display glyph, with a fixed
//! tier priority and one explicit suppression rule.

use vstd::prelude::*;
use crate::keymap::{alt_glyph, alt_lookup, base_glyph, base_lookup, shift_alt_glyph,
    shift_alt_lookup, shift_glyph, shift_lookup, token_view, Profile};
use crate::keys::Key;
use crate::modifiers::{Modifier, ModifierSet};

verus! {

/// The key whose combination with Control is reserved for a system shortcut
/// and deliberately echoes nothing, although an unmodified entry exists.
pub open spec fn spec_suppressed_key() -> Key {
    Key::Equal
}

/// The resolution result as a function of the three bits the resolver reads.
/// Tier priority: the Shift+Alt combination entry first, then Shift-only,
/// then Alt-only, then the unmodified base entry; a key with no entry at any
/// tier yields nothing, which is not an error.
pub open spec fn resolve_bits(p: Profile, k: Key, ctrl: bool, shift: bool, alt: bool) -> Option<
    Seq<char>,
> {
    if ctrl && k == spec_suppressed_key() {
        None
    } else if shift && alt && shift_alt_glyph(p, k) is Some {
        shift_alt_glyph(p, k)
    } else if shift && shift_glyph(p, k) is Some {
        shift_glyph(p, k)
    } else if alt && alt_glyph(p, k) is Some {
        alt_glyph(p, k)
    } else {
        base_glyph(p, k)
    }
}

/// The glyph that pressing `k` under the modifier snapshot `mods` displays,
/// if any. Only the Control, Shift and Alt bits take part; Meta never
/// influences resolution.
pub open spec fn spec_resolve(p: Profile, k: Key, mods: ModifierSet) -> Option<Seq<char>> {
    resolve_bits(
        p,
        k,
        mods.spec_get(Modifier::Control),
        mods.spec_get(Modifier::Shift),
        mods.spec_get(Modifier::Alt),
    )
}

/// Resolves a pressed key under the given modifier snapshot to at most one
/// display glyph.
pub fn resolve(p: Profile, k: Key, mods: &ModifierSet) -> (t: Option<Vec<char>>)
    ensures
        token_view(t) == spec_resolve(p, k, *mods),
{
    let ctrl = mods.get(Modifier::Control);
    let shift = mods.get(Modifier::Shift);
    let alt = mods.get(Modifier::Alt);
    if ctrl && k == Key::Equal {
        return None;
    }
    if shift && alt {
        let combined = shift_alt_lookup(p, k);
        if combined.is_some() {
            return combined;
        }
    }
    if shift {
        let shifted = shift_lookup(p, k);
        if shifted.is_some() {
            return shifted;
        }
    }
    if alt {
        let alted = alt_lookup(p, k);
        if alted.is_some() {
            return alted;
        }
    }
    base_lookup(p, k)
}

/// The resolver is pure and reads only the relevant bits: two snapshots that
/// agree on Control, Shift and Alt resolve every key identically, however
/// they differ on unrelated modifiers.
pub proof fn lemma_resolver_reads_relevant_bits(
    p: Profile,
    k: Key,
    m1: ModifierSet,
    m2: ModifierSet,
)
    requires
        m1.spec_get(Modifier::Control) == m2.spec_get(Modifier::Control),
        m1.spec_get(Modifier::Shift) == m2.spec_get(Modifier::Shift),
        m1.spec_get(Modifier::Alt) == m2.spec_get(Modifier::Alt),
    ensures
        spec_resolve(p, k, m1) == spec_resolve(p, k, m2),
{
}

} // verus!
