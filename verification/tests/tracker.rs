use keyscreen::modifiers::{Modifier, ModifierSet};

#[test]
fn starts_with_nothing_held() {
    let s = ModifierSet::new();
    assert!(!s.get(Modifier::Control));
    assert!(!s.get(Modifier::Shift));
    assert!(!s.get(Modifier::Alt));
    assert!(!s.get(Modifier::Meta));
}

#[test]
fn set_overwrites_only_its_bit() {
    let mut s = ModifierSet::new();
    s.set(Modifier::Shift, true);
    assert!(s.get(Modifier::Shift));
    assert!(!s.get(Modifier::Control));
    assert!(!s.get(Modifier::Alt));
    assert!(!s.get(Modifier::Meta));
    s.set(Modifier::Shift, false);
    assert!(!s.get(Modifier::Shift));
}

#[test]
fn last_transition_wins_with_duplicates() {
    let mut s = ModifierSet::new();
    for pressed in [true, true, false, true, false, false, true] {
        s.set(Modifier::Alt, pressed);
    }
    assert!(s.get(Modifier::Alt));
    for pressed in [true, false, false] {
        s.set(Modifier::Alt, pressed);
    }
    assert!(!s.get(Modifier::Alt));
}

#[test]
fn release_without_press_is_safe_and_idempotent() {
    let mut s = ModifierSet::new();
    s.set(Modifier::Meta, false);
    let once = s;
    s.set(Modifier::Meta, false);
    assert_eq!(s, once);
    assert!(!s.get(Modifier::Meta));
}

#[test]
fn indicator_chars_are_distinct() {
    let all = [Modifier::Control, Modifier::Shift, Modifier::Alt, Modifier::Meta];
    assert_eq!(Modifier::Control.indicator(), '\u{2303}');
    assert_eq!(Modifier::Shift.indicator(), '\u{21e7}');
    for a in all {
        for b in all {
            if a != b {
                assert_ne!(a.indicator(), b.indicator());
            }
        }
    }
}
