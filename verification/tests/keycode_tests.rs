use virtual_terminal::keycode::{key_event_to_keycode, EncodingError, KeyEvent};

const CONTROL_KEYS: [KeyEvent; 13] = [
    KeyEvent::Backspace,
    KeyEvent::Enter,
    KeyEvent::Left,
    KeyEvent::Right,
    KeyEvent::Up,
    KeyEvent::Down,
    KeyEvent::Home,
    KeyEvent::End,
    KeyEvent::PageUp,
    KeyEvent::PageDown,
    KeyEvent::Tab,
    KeyEvent::Delete,
    KeyEvent::Insert,
];

#[test]
fn control_keys_have_their_fixed_codes() {
    assert_eq!(key_event_to_keycode(KeyEvent::Backspace), Ok(0x08));
    assert_eq!(key_event_to_keycode(KeyEvent::Tab), Ok(0x09));
    assert_eq!(key_event_to_keycode(KeyEvent::Enter), Ok(0x0E));
    assert_eq!(key_event_to_keycode(KeyEvent::PageUp), Ok(0xA1));
    assert_eq!(key_event_to_keycode(KeyEvent::PageDown), Ok(0xA2));
    assert_eq!(key_event_to_keycode(KeyEvent::End), Ok(0xA3));
    assert_eq!(key_event_to_keycode(KeyEvent::Home), Ok(0xA4));
    assert_eq!(key_event_to_keycode(KeyEvent::Left), Ok(0xA5));
    assert_eq!(key_event_to_keycode(KeyEvent::Up), Ok(0xA6));
    assert_eq!(key_event_to_keycode(KeyEvent::Right), Ok(0xA7));
    assert_eq!(key_event_to_keycode(KeyEvent::Down), Ok(0xA8));
    assert_eq!(key_event_to_keycode(KeyEvent::Insert), Ok(0xAD));
    assert_eq!(key_event_to_keycode(KeyEvent::Delete), Ok(0xAE));
}

#[test]
fn codes_in_the_control_range_are_those_of_the_keycodes_crate() {
    assert_eq!(key_event_to_keycode(KeyEvent::Backspace), Ok(keycodes::KEY_BACK_SPACE));
    assert_eq!(key_event_to_keycode(KeyEvent::Tab), Ok(keycodes::KEY_TAB));
    assert_eq!(key_event_to_keycode(KeyEvent::Enter), Ok(keycodes::KEY_ENTER));
}

#[test]
fn printable_values_of_the_keycodes_crate_get_their_top_bit_set() {
    assert_eq!(key_event_to_keycode(KeyEvent::Left), Ok(keycodes::KEY_LEFT | 0x80));
    assert_eq!(key_event_to_keycode(KeyEvent::Right), Ok(keycodes::KEY_RIGHT | 0x80));
    assert_eq!(key_event_to_keycode(KeyEvent::Up), Ok(keycodes::KEY_UP | 0x80));
    assert_eq!(key_event_to_keycode(KeyEvent::Down), Ok(keycodes::KEY_DOWN | 0x80));
    assert_eq!(key_event_to_keycode(KeyEvent::Home), Ok(keycodes::KEY_HOME | 0x80));
    assert_eq!(key_event_to_keycode(KeyEvent::End), Ok(keycodes::KEY_END | 0x80));
    assert_eq!(key_event_to_keycode(KeyEvent::PageUp), Ok(keycodes::KEY_PAGE_UP | 0x80));
    assert_eq!(key_event_to_keycode(KeyEvent::PageDown), Ok(keycodes::KEY_PAGE_DOWN | 0x80));
    assert_eq!(key_event_to_keycode(KeyEvent::Delete), Ok(keycodes::KEY_DELETE | 0x80));
    assert_eq!(key_event_to_keycode(KeyEvent::Insert), Ok(keycodes::KEY_INSERT | 0x80));
}

#[test]
fn no_control_code_is_a_printable_ascii_byte() {
    for key in CONTROL_KEYS {
        let code: u8 = key_event_to_keycode(key).unwrap();
        assert!(code <= 31 || code >= 127);
    }
}

#[test]
fn no_control_key_shares_its_code_with_a_printable_ascii_character() {
    for key in CONTROL_KEYS {
        for byte in 0x20u8..=0x7E {
            let ch = char::from(byte);
            assert_ne!(key_event_to_keycode(key), key_event_to_keycode(KeyEvent::Char(ch)));
        }
    }
}

#[test]
fn every_control_key_translates() {
    for key in CONTROL_KEYS {
        assert!(key_event_to_keycode(key).is_ok());
    }
}

#[test]
fn distinct_control_keys_have_distinct_codes() {
    for (i, a) in CONTROL_KEYS.iter().enumerate() {
        for (j, b) in CONTROL_KEYS.iter().enumerate() {
            if i != j {
                assert_ne!(key_event_to_keycode(*a), key_event_to_keycode(*b));
            }
        }
    }
}

#[test]
fn ascii_characters_translate_to_their_byte() {
    assert_eq!(key_event_to_keycode(KeyEvent::Char('h')), Ok(0x68));
    assert_eq!(key_event_to_keycode(KeyEvent::Char('i')), Ok(0x69));
    assert_eq!(key_event_to_keycode(KeyEvent::Char('q')), Ok(0x71));
    assert_eq!(key_event_to_keycode(KeyEvent::Char(' ')), Ok(0x20));
    assert_eq!(key_event_to_keycode(KeyEvent::Char('\u{0}')), Ok(0x00));
    assert_eq!(key_event_to_keycode(KeyEvent::Char('\u{7f}')), Ok(0x7F));
}

#[test]
fn every_one_byte_character_translates_to_its_code_point() {
    for code in 0u32..=0xFF {
        let ch = char::from_u32(code).unwrap();
        assert_eq!(key_event_to_keycode(KeyEvent::Char(ch)), Ok(code as u8));
    }
}

#[test]
fn last_one_byte_character_translates() {
    assert_eq!(key_event_to_keycode(KeyEvent::Char('\u{e9}')), Ok(0xE9));
    assert_eq!(key_event_to_keycode(KeyEvent::Char('\u{ff}')), Ok(0xFF));
}

#[test]
fn wide_characters_are_rejected() {
    assert_eq!(
        key_event_to_keycode(KeyEvent::Char('\u{100}')),
        Err(EncodingError::WideCharacter)
    );
    assert_eq!(
        key_event_to_keycode(KeyEvent::Char('\u{20ac}')),
        Err(EncodingError::WideCharacter)
    );
    assert_eq!(
        key_event_to_keycode(KeyEvent::Char('\u{1f600}')),
        Err(EncodingError::WideCharacter)
    );
    assert_eq!(
        key_event_to_keycode(KeyEvent::Char(char::MAX)),
        Err(EncodingError::WideCharacter)
    );
}

#[test]
fn other_keys_are_rejected() {
    let others = [
        KeyEvent::BackTab,
        KeyEvent::F(1),
        KeyEvent::F(12),
        KeyEvent::Null,
        KeyEvent::Esc,
        KeyEvent::CapsLock,
        KeyEvent::ScrollLock,
        KeyEvent::NumLock,
        KeyEvent::PrintScreen,
        KeyEvent::Pause,
        KeyEvent::Menu,
        KeyEvent::KeypadBegin,
        KeyEvent::Media,
        KeyEvent::Modifier,
    ];
    for key in others {
        assert_eq!(key_event_to_keycode(key), Err(EncodingError::UnsupportedKey));
    }
}
