use barcode_scanner::decoder::{Decoder, KeyEvent, ModifierState};
use barcode_scanner::error::Error;
use barcode_scanner::keys::{
    key_to_str, EV_KEY, KEY_0, KEY_1, KEY_2, KEY_3, KEY_4, KEY_5, KEY_6, KEY_7, KEY_8, KEY_9, KEY_A,
    KEY_APOSTROPHE, KEY_B, KEY_BACKSLASH, KEY_CAPSLOCK, KEY_COMMA, KEY_DOT, KEY_ENTER, KEY_EQUAL,
    KEY_GRAVE, KEY_H, KEY_I, KEY_KPENTER, KEY_LEFTBRACE, KEY_LEFTSHIFT, KEY_MINUS, KEY_Q,
    KEY_RIGHTBRACE, KEY_RIGHTSHIFT, KEY_SEMICOLON, KEY_SLASH, KEY_SPACE, KEY_TAB, KEY_X, KEY_Y,
    KEY_Z,
};

fn press(key: u16) -> KeyEvent {
    KeyEvent { key, pressed: true }
}

fn release(key: u16) -> KeyEvent {
    KeyEvent { key, pressed: false }
}

/// Runs the read loop against a list of fetch outcomes, as a device would
/// deliver them; `None` where the outcomes run out before a barcode is complete.
fn read_next(
    decoder: &mut Decoder,
    fetches: &mut Vec<Result<Vec<KeyEvent>, Error>>,
) -> Option<Result<String, Error>> {
    if let Some(barcode) = decoder.take_barcode() {
        return Some(Ok(barcode));
    }
    while !fetches.is_empty() {
        let fetched = fetches.remove(0);
        match decoder.on_fetched(fetched) {
            Ok(Some(barcode)) => return Some(Ok(barcode)),
            Ok(None) => {}
            Err(e) => return Some(Err(e)),
        }
    }
    None
}

const DIGITS: [u16; 10] = [KEY_1, KEY_2, KEY_3, KEY_4, KEY_5, KEY_6, KEY_7, KEY_8, KEY_9, KEY_0];

#[test]
fn digits_unshifted_and_shifted() {
    let plain = "1234567890";
    let shifted = "!@#$%^&*()";
    for (i, key) in DIGITS.iter().enumerate() {
        assert_eq!(key_to_str(*key, false), plain.chars().nth(i));
        assert_eq!(key_to_str(*key, true), shifted.chars().nth(i));
    }
}

#[test]
fn digit_presses_fill_buffer_in_order() {
    let mut decoder = Decoder::new();
    let mut batch: Vec<KeyEvent> = DIGITS.iter().map(|k| press(*k)).collect();
    batch.push(press(KEY_ENTER));
    assert_eq!(decoder.on_fetched(Ok(batch)).unwrap(), Some("1234567890".to_string()));

    let mut batch = vec![press(KEY_RIGHTSHIFT)];
    batch.extend(DIGITS.iter().map(|k| press(*k)));
    batch.push(press(KEY_ENTER));
    assert_eq!(decoder.on_fetched(Ok(batch)).unwrap(), Some("!@#$%^&*()".to_string()));
}

#[test]
fn letters_follow_shift_and_caps_lock() {
    assert_eq!(key_to_str(KEY_A, false), Some('a'));
    assert_eq!(key_to_str(KEY_A, true), Some('A'));
    assert_eq!(key_to_str(KEY_Q, false), Some('q'));
    assert_eq!(key_to_str(KEY_Z, true), Some('Z'));

    let caps_only = ModifierState { left_shift: false, right_shift: false, caps_lock: true };
    assert!(caps_only.capital());
    assert!(!ModifierState::new().capital());

    let mut decoder = Decoder::new();
    let batch = vec![
        press(KEY_CAPSLOCK),
        press(KEY_A),
        release(KEY_CAPSLOCK),
        press(KEY_B),
        press(KEY_ENTER),
    ];
    assert_eq!(decoder.on_fetched(Ok(batch)).unwrap(), Some("Ab".to_string()));
}

#[test]
fn key_mapping_is_repeatable() {
    for key in 0u16..200 {
        for capital in [false, true] {
            assert_eq!(key_to_str(key, capital), key_to_str(key, capital));
        }
    }
}

#[test]
fn punctuation_pairs() {
    let table = [
        (KEY_SPACE, ' ', ' '),
        (KEY_TAB, '\t', '\t'),
        (KEY_APOSTROPHE, '\'', '"'),
        (KEY_EQUAL, '=', '+'),
        (KEY_COMMA, ',', '<'),
        (KEY_MINUS, '-', '_'),
        (KEY_DOT, '.', '>'),
        (KEY_SLASH, '/', '?'),
        (KEY_BACKSLASH, '\\', '|'),
        (KEY_SEMICOLON, ';', ':'),
        (KEY_LEFTBRACE, '[', '{'),
        (KEY_RIGHTBRACE, ']', '}'),
        (KEY_GRAVE, '`', '~'),
    ];
    for (key, lower, upper) in table {
        assert_eq!(key_to_str(key, false), Some(lower));
        assert_eq!(key_to_str(key, true), Some(upper));
    }
}

#[test]
fn enter_keys_and_unmapped_keys() {
    for capital in [false, true] {
        assert_eq!(key_to_str(KEY_ENTER, capital), Some('\n'));
        assert_eq!(key_to_str(KEY_KPENTER, capital), Some('\n'));
        assert_eq!(key_to_str(KEY_LEFTSHIFT, capital), None);
        assert_eq!(key_to_str(KEY_RIGHTSHIFT, capital), None);
        assert_eq!(key_to_str(KEY_CAPSLOCK, capital), None);
        assert_eq!(key_to_str(1, capital), None);
        assert_eq!(key_to_str(u16::MAX, capital), None);
    }
}

#[test]
fn releases_type_nothing() {
    let mut decoder = Decoder::new();
    let batch: Vec<KeyEvent> = (0u16..200).map(release).collect();
    assert_eq!(decoder.on_fetched(Ok(batch)).unwrap(), None);
    let batch = vec![press(KEY_X), release(KEY_X), release(KEY_ENTER), press(KEY_ENTER)];
    assert_eq!(decoder.on_fetched(Ok(batch)).unwrap(), Some("x".to_string()));
}

#[test]
fn reads_hi() {
    let mut decoder = Decoder::new();
    let mut fetches = vec![Ok(vec![press(KEY_H), press(KEY_I), press(KEY_ENTER)])];
    assert_eq!(read_next(&mut decoder, &mut fetches).unwrap().unwrap(), "hi");
}

#[test]
fn shift_applies_to_next_key_only_while_down() {
    let mut decoder = Decoder::new();
    let mut fetches = vec![Ok(vec![
        press(KEY_LEFTSHIFT),
        press(KEY_A),
        release(KEY_LEFTSHIFT),
        press(KEY_B),
        press(KEY_ENTER),
    ])];
    assert_eq!(read_next(&mut decoder, &mut fetches).unwrap().unwrap(), "Ab");
}

#[test]
fn leftover_after_terminator_is_kept() {
    let mut decoder = Decoder::new();
    let mut fetches =
        vec![Ok(vec![press(KEY_X), press(KEY_ENTER), press(KEY_Y), press(KEY_ENTER)])];
    assert_eq!(read_next(&mut decoder, &mut fetches).unwrap().unwrap(), "x");
    assert!(fetches.is_empty());
    assert_eq!(read_next(&mut decoder, &mut fetches).unwrap().unwrap(), "y");
    assert!(read_next(&mut decoder, &mut fetches).is_none());
}

#[test]
fn modifier_batch_waits_for_terminator() {
    let mut decoder = Decoder::new();
    let modifiers = vec![press(KEY_LEFTSHIFT), press(KEY_RIGHTSHIFT), press(KEY_CAPSLOCK)];
    assert_eq!(decoder.on_fetched(Ok(modifiers.clone())).unwrap(), None);
    assert_eq!(decoder.take_barcode(), None);

    let mut fetches = vec![Ok(modifiers), Ok(vec![press(KEY_KPENTER)])];
    assert_eq!(read_next(&mut decoder, &mut fetches).unwrap().unwrap(), "");
}

#[test]
fn device_error_keeps_buffer() {
    let mut decoder = Decoder::new();
    let mut fetches = vec![
        Ok(vec![press(KEY_A), press(KEY_B)]),
        Err(Error::new("failed to fetch events: device gone".to_string())),
    ];
    let err = read_next(&mut decoder, &mut fetches).unwrap().unwrap_err();
    assert_eq!(err.message(), "failed to fetch events: device gone");

    let mut fetches = vec![Ok(vec![press(KEY_1), press(KEY_ENTER)])];
    assert_eq!(read_next(&mut decoder, &mut fetches).unwrap().unwrap(), "ab1");
}


#[test]
fn consecutive_terminators_give_empty_barcode() {
    let mut decoder = Decoder::new();
    let batch = vec![press(KEY_ENTER), press(KEY_ENTER), press(KEY_Z), press(KEY_KPENTER)];
    assert_eq!(decoder.on_fetched(Ok(batch)).unwrap(), Some(String::new()));
    assert_eq!(decoder.take_barcode(), Some(String::new()));
    assert_eq!(decoder.take_barcode(), Some("z".to_string()));
    assert_eq!(decoder.take_barcode(), None);
}

#[test]
fn modifier_state_persists_across_batches() {
    let mut decoder = Decoder::new();
    assert_eq!(decoder.on_fetched(Ok(vec![press(KEY_LEFTSHIFT)])).unwrap(), None);
    let batch = vec![press(KEY_A), release(KEY_LEFTSHIFT), press(KEY_A), press(KEY_ENTER)];
    assert_eq!(decoder.on_fetched(Ok(batch)).unwrap(), Some("Aa".to_string()));
}

#[test]
fn raw_events_become_key_events() {
    assert_eq!(KeyEvent::from_input(EV_KEY, KEY_A, 1), Some(press(KEY_A)));
    assert_eq!(KeyEvent::from_input(EV_KEY, KEY_A, 0), Some(release(KEY_A)));
    assert_eq!(KeyEvent::from_input(EV_KEY, KEY_A, 2), Some(release(KEY_A)));
    assert_eq!(KeyEvent::from_input(0, 0, 0), None);
    assert_eq!(KeyEvent::from_input(4, 4, 458756), None);
}

#[test]
fn error_keeps_its_message() {
    let e = Error::new("Failed to grab input device".to_string());
    assert_eq!(e.message(), "Failed to grab input device");
    assert_eq!(e.clone().message(), e.message());
}
