use keyscreen::keymap::Profile;
use keyscreen::keys::Key;
use keyscreen::modifiers::{Modifier, ModifierSet};
use keyscreen::resolve::resolve;

fn mods(control: bool, shift: bool, alt: bool, meta: bool) -> ModifierSet {
    let mut s = ModifierSet::new();
    s.set(Modifier::Control, control);
    s.set(Modifier::Shift, shift);
    s.set(Modifier::Alt, alt);
    s.set(Modifier::Meta, meta);
    s
}

fn text(t: Option<Vec<char>>) -> Option<String> {
    t.map(|v| v.into_iter().collect())
}

#[test]
fn base_mapping() {
    let t = resolve(Profile::Verbose, Key::KeyA, &ModifierSet::new());
    assert_eq!(text(t), Some(String::from("a")));
}

#[test]
fn shift_gates_the_uppercase_form() {
    let t = resolve(Profile::Verbose, Key::KeyA, &mods(false, true, false, false));
    assert_eq!(text(t), Some(String::from("A")));
}

#[test]
fn shift_alt_combination_beats_single_tiers() {
    let t = resolve(Profile::Verbose, Key::KeyA, &mods(false, true, true, false));
    assert_eq!(text(t), Some(String::from("\u{c4}")));
}

#[test]
fn shift_wins_when_no_combination_entry_exists() {
    let t = resolve(Profile::Verbose, Key::KeyB, &mods(false, true, true, false));
    assert_eq!(text(t), Some(String::from("B")));
}

#[test]
fn alt_mapping() {
    let t = resolve(Profile::Verbose, Key::KeyQ, &mods(false, false, true, false));
    assert_eq!(text(t), Some(String::from("@")));
}

#[test]
fn repeated_calls_are_identical() {
    let snapshot = mods(false, true, false, false);
    let first = text(resolve(Profile::Verbose, Key::Num2, &snapshot));
    let second = text(resolve(Profile::Verbose, Key::Num2, &snapshot));
    assert_eq!(first, Some(String::from("\"")));
    assert_eq!(first, second);
}

#[test]
fn unrelated_modifiers_do_not_matter() {
    let bare = mods(false, true, false, false);
    let with_meta = mods(false, true, false, true);
    assert_eq!(
        text(resolve(Profile::Verbose, Key::KeyL, &bare)),
        text(resolve(Profile::Verbose, Key::KeyL, &with_meta)),
    );
}

#[test]
fn control_suppresses_the_designated_key() {
    let held = mods(true, false, false, false);
    assert_eq!(resolve(Profile::Verbose, Key::Equal, &held), None);
    // the unmodified mapping exists all the same
    let t = resolve(Profile::Verbose, Key::Equal, &ModifierSet::new());
    assert_eq!(text(t), Some(String::from("`")));
}

#[test]
fn control_does_not_suppress_other_keys() {
    let held = mods(true, false, false, false);
    let t = resolve(Profile::Verbose, Key::KeyA, &held);
    assert_eq!(text(t), Some(String::from("a")));
}

#[test]
fn function_keys_give_multi_scalar_labels() {
    let t = resolve(Profile::Verbose, Key::F1, &ModifierSet::new());
    assert_eq!(text(t), Some(String::from("F1")));
    let t = resolve(Profile::Verbose, Key::F12, &ModifierSet::new());
    assert_eq!(text(t), Some(String::from("F12")));
}

#[test]
fn swapped_letter_rows_follow_the_layout() {
    assert_eq!(
        text(resolve(Profile::Verbose, Key::KeyY, &ModifierSet::new())),
        Some(String::from("z")),
    );
    assert_eq!(
        text(resolve(Profile::Verbose, Key::KeyZ, &mods(false, true, false, false))),
        Some(String::from("Y")),
    );
}

#[test]
fn backspace_echoes_a_glyph() {
    let t = resolve(Profile::Verbose, Key::Backspace, &ModifierSet::new());
    assert_eq!(text(t), Some(String::from("\u{232b}")));
}

#[test]
fn unknown_key_produces_no_token() {
    // modifier keys are not in any glyph table
    assert_eq!(resolve(Profile::Verbose, Key::ShiftLeft, &ModifierSet::new()), None);
    // the compact profile covers fewer keys
    assert_eq!(resolve(Profile::Compact, Key::LeftArrow, &ModifierSet::new()), None);
}

#[test]
fn compact_profile_has_no_tiering() {
    let shifted = mods(false, true, false, false);
    assert_eq!(
        text(resolve(Profile::Compact, Key::KeyA, &shifted)),
        Some(String::from("a")),
    );
    assert_eq!(resolve(Profile::Compact, Key::Equal, &mods(true, false, false, false)), None);
}

#[test]
fn profiles_select_their_capacity() {
    assert_eq!(Profile::Verbose.max_chars(), 10);
    assert_eq!(Profile::Compact.max_chars(), 5);
}
