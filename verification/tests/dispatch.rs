use keyscreen::engine::Engine;
use keyscreen::events::{classify, Event};
use keyscreen::keymap::Profile;
use keyscreen::keys::Key;
use keyscreen::modifiers::Modifier;

fn shown(e: &Engine) -> String {
    e.text().iter().collect()
}

#[test]
fn classify_maps_modifier_keys_on_both_edges() {
    assert_eq!(
        classify(Key::ControlLeft, true),
        Some(Event::Modifier { key: Modifier::Control, pressed: true }),
    );
    assert_eq!(
        classify(Key::ShiftLeft, false),
        Some(Event::Modifier { key: Modifier::Shift, pressed: false }),
    );
    assert_eq!(
        classify(Key::AltGr, true),
        Some(Event::Modifier { key: Modifier::Alt, pressed: true }),
    );
    assert_eq!(
        classify(Key::MetaLeft, false),
        Some(Event::Modifier { key: Modifier::Meta, pressed: false }),
    );
}

#[test]
fn classify_keeps_presses_and_drops_releases() {
    assert_eq!(classify(Key::KeyA, true), Some(Event::Key(Key::KeyA)));
    assert_eq!(classify(Key::KeyA, false), None);
}

#[test]
fn fresh_appends_accumulate() {
    let mut e = Engine::new(Profile::Verbose);
    e.handle(Event::Key(Key::F1));
    e.handle(Event::Key(Key::KeyA));
    assert_eq!(shown(&e), "F1a");
}

#[test]
fn modifier_gated_resolution_and_silent_release() {
    let mut e = Engine::new(Profile::Verbose);
    e.handle(Event::Modifier { key: Modifier::Shift, pressed: true });
    e.handle(Event::Key(Key::KeyA));
    assert_eq!(shown(&e), "A");
    e.handle(Event::Modifier { key: Modifier::Shift, pressed: false });
    assert!(!e.modifiers().get(Modifier::Shift));
    assert_eq!(shown(&e), "A");
}

#[test]
fn suppressed_combination_echoes_nothing() {
    let mut e = Engine::new(Profile::Verbose);
    e.handle(Event::Modifier { key: Modifier::Control, pressed: true });
    e.handle(Event::Key(Key::Equal));
    assert_eq!(shown(&e), "");
}

#[test]
fn backspace_is_an_echo_not_a_deletion() {
    let mut e = Engine::new(Profile::Verbose);
    e.handle(Event::Key(Key::KeyA));
    e.handle(Event::Key(Key::Backspace));
    assert_eq!(shown(&e), "a\u{232b}");
}

#[test]
fn display_window_slides_at_capacity() {
    let mut e = Engine::new(Profile::Compact);
    for k in [Key::KeyA, Key::KeyB, Key::KeyC, Key::KeyD, Key::KeyE, Key::KeyF, Key::KeyG] {
        e.handle(Event::Key(k));
    }
    assert_eq!(shown(&e), "cdefg");
}

#[test]
fn handle_all_drains_in_order() {
    let mut e = Engine::new(Profile::Verbose);
    let frame = vec![
        Event::Modifier { key: Modifier::Shift, pressed: true },
        Event::Key(Key::KeyH),
        Event::Modifier { key: Modifier::Shift, pressed: false },
        Event::Key(Key::KeyI),
        Event::Key(Key::Num1),
    ];
    e.handle_all(&frame);
    assert_eq!(shown(&e), "Hi1");
    assert!(!e.modifiers().get(Modifier::Shift));
}

#[test]
fn unknown_keys_leave_the_engine_unchanged() {
    let mut e = Engine::new(Profile::Verbose);
    e.handle(Event::Key(Key::KeyX));
    // a modifier key never reaches the tables
    e.handle(Event::Key(Key::MetaLeft));
    assert_eq!(shown(&e), "x");
}
