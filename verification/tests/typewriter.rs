use ascii_avatar::animation::State;
use ascii_avatar::typewriter::Typewriter;

#[test]
fn empty_typewriter_reports_idle() {
    let mut t = Typewriter::new(0);
    assert_eq!(t.update_typewriter(1000), Some(State::IDLE));
    assert_eq!(t.visible_text(), "");
}

#[test]
fn characters_reveal_on_the_75ms_cadence() {
    let mut t = Typewriter::new(0);
    t.add_message("abc".to_string(), 0);
    assert_eq!(t.visible_text(), "");
    // not yet: the delay has not elapsed
    assert_eq!(t.update_typewriter(74), None);
    assert_eq!(t.visible_text(), "");
    // one character per elapsed delay
    assert_eq!(t.update_typewriter(75), Some(State::TALKING));
    assert_eq!(t.visible_text(), "a");
    assert_eq!(t.update_typewriter(150), Some(State::TALKING));
    assert_eq!(t.visible_text(), "ab");
    assert_eq!(t.update_typewriter(225), Some(State::TALKING));
    assert_eq!(t.visible_text(), "abc");
    // fully revealed: idle from now on, nothing more appears
    assert_eq!(t.update_typewriter(300), Some(State::IDLE));
    assert_eq!(t.visible_text(), "abc");
}

#[test]
fn reveal_counts_characters_not_bytes() {
    let mut t = Typewriter::new(0);
    t.add_message("héé".to_string(), 0);
    assert_eq!(t.update_typewriter(80), Some(State::TALKING));
    assert_eq!(t.visible_text(), "h");
    assert_eq!(t.update_typewriter(160), Some(State::TALKING));
    assert_eq!(t.visible_text(), "hé");
    assert_eq!(t.update_typewriter(240), Some(State::TALKING));
    assert_eq!(t.visible_text(), "héé");
    assert_eq!(t.update_typewriter(320), Some(State::IDLE));
}

#[test]
fn a_new_message_restarts_the_reveal() {
    let mut t = Typewriter::new(0);
    t.add_message("first".to_string(), 0);
    assert_eq!(t.update_typewriter(100), Some(State::TALKING));
    assert_eq!(t.visible_text(), "f");
    t.add_message("second".to_string(), 100);
    assert_eq!(t.visible_text(), "");
    assert_eq!(t.update_typewriter(180), Some(State::TALKING));
    assert_eq!(t.visible_text(), "s");
}
