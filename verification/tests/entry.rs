use keychord::entry::KeyStateEntry;
use keychord::key::Key;
use keychord::state::ButtonState;

#[test]
fn from_press_is_pressed() {
    let entry = KeyStateEntry::from_press(Key::F8);
    assert_eq!(entry.key, Key::F8);
    assert_eq!(entry.state, ButtonState::Pressed);
    assert!(entry.is_pressed());
    assert!(!entry.is_released());
}

#[test]
fn from_release_is_released() {
    let entry = KeyStateEntry::from_release(Key::ShiftLeft);
    assert_eq!(entry.key, Key::ShiftLeft);
    assert_eq!(entry.state, ButtonState::Released);
    assert!(entry.is_released());
    assert!(!entry.is_pressed());
}

#[test]
fn default_entry_is_released_placeholder() {
    let entry = KeyStateEntry::default();
    assert_eq!(entry.key, Key::Backspace);
    assert_eq!(entry.state, ButtonState::Released);
}

#[test]
fn set_state_keeps_key() {
    let mut entry = KeyStateEntry::from_release(Key::KeyQ);
    entry.set_state(ButtonState::Pressed);
    assert_eq!(entry, KeyStateEntry { key: Key::KeyQ, state: ButtonState::Pressed });
    entry.set_state(ButtonState::Pressed);
    assert_eq!(entry, KeyStateEntry { key: Key::KeyQ, state: ButtonState::Pressed });
    entry.set_state(ButtonState::Released);
    assert_eq!(entry, KeyStateEntry { key: Key::KeyQ, state: ButtonState::Released });
}

#[test]
fn invert_state_flips_and_keeps_key() {
    let mut entry = KeyStateEntry::from_release(Key::Unknown(77));
    entry.invert_state();
    assert_eq!(entry, KeyStateEntry { key: Key::Unknown(77), state: ButtonState::Pressed });
    entry.invert_state();
    assert_eq!(entry, KeyStateEntry { key: Key::Unknown(77), state: ButtonState::Released });
}

#[test]
fn set_key_keeps_state() {
    let mut entry = KeyStateEntry::from_press(Key::Alt);
    entry.set_key(Key::AltGr);
    assert_eq!(entry, KeyStateEntry { key: Key::AltGr, state: ButtonState::Pressed });
    let mut blank = KeyStateEntry::default();
    blank.set_key(Key::F8);
    assert_eq!(blank, KeyStateEntry { key: Key::F8, state: ButtonState::Released });
}

#[test]
fn entry_derefs_to_its_key() {
    let entry = KeyStateEntry::from_press(Key::Escape);
    assert_eq!(*entry, Key::Escape);
    let key: &Key = &entry;
    assert_eq!(*key, Key::Escape);
}

#[test]
fn entry_equality_compares_key_and_state() {
    assert_eq!(KeyStateEntry::from_press(Key::Tab), KeyStateEntry::from_press(Key::Tab));
    assert_ne!(KeyStateEntry::from_press(Key::Tab), KeyStateEntry::from_release(Key::Tab));
    assert_ne!(KeyStateEntry::from_press(Key::Tab), KeyStateEntry::from_press(Key::Space));
}

#[test]
fn unknown_keys_differ_by_code() {
    assert_eq!(Key::Unknown(5), Key::Unknown(5));
    assert_ne!(Key::Unknown(5), Key::Unknown(6));
    assert_ne!(Key::Unknown(0), Key::Alt);
}
