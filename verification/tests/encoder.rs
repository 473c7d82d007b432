use inf_edit::keys::{encode, key_event_to_string, KeyCode, KeyEvent};

fn plain(code: KeyCode) -> KeyEvent {
    KeyEvent::plain(code)
}

fn ctrl(code: KeyCode) -> KeyEvent {
    KeyEvent { code, ctrl: true, alt: false, shift: false }
}

fn alt(code: KeyCode) -> KeyEvent {
    KeyEvent { code, ctrl: false, alt: true, shift: false }
}

#[test]
fn control_a_is_one_byte_value_one() {
    assert_eq!(encode(ctrl(KeyCode::Char('a'))), vec![1u8]);
}

#[test]
fn control_z_is_twenty_six() {
    assert_eq!(encode(ctrl(KeyCode::Char('z'))), vec![26u8]);
    assert_eq!(encode(ctrl(KeyCode::Char('Z'))), vec![26u8]);
}

#[test]
fn control_punctuation_table() {
    assert_eq!(encode(ctrl(KeyCode::Char('@'))), vec![0u8]);
    assert_eq!(encode(ctrl(KeyCode::Char('['))), vec![0x1b]);
    assert_eq!(encode(ctrl(KeyCode::Char('\\'))), vec![0x1c]);
    assert_eq!(encode(ctrl(KeyCode::Char(']'))), vec![0x1d]);
    assert_eq!(encode(ctrl(KeyCode::Char('^'))), vec![0x1e]);
    assert_eq!(encode(ctrl(KeyCode::Char('_'))), vec![0x1f]);
    assert_eq!(encode(ctrl(KeyCode::Char('?'))), vec![127u8]);
    assert_eq!(encode(ctrl(KeyCode::Char('1'))), Vec::<u8>::new());
}

#[test]
fn alt_left_is_escape_then_left_sequence() {
    assert_eq!(encode(alt(KeyCode::Left)), vec![0x1b, 0x1b, b'[', b'D']);
}

#[test]
fn arrows_and_navigation_keys() {
    assert_eq!(encode(plain(KeyCode::Left)), vec![0x1b, b'[', b'D']);
    assert_eq!(encode(plain(KeyCode::Right)), vec![0x1b, b'[', b'C']);
    assert_eq!(encode(plain(KeyCode::Up)), vec![0x1b, b'[', b'A']);
    assert_eq!(encode(plain(KeyCode::Down)), vec![0x1b, b'[', b'B']);
    assert_eq!(encode(ctrl(KeyCode::Left)), vec![0x1b, b'[', b'1', b';', b'5', b'D']);
    assert_eq!(encode(plain(KeyCode::Home)), vec![0x1b, b'[', b'H']);
    assert_eq!(encode(plain(KeyCode::End)), vec![0x1b, b'[', b'F']);
    assert_eq!(encode(plain(KeyCode::PageUp)), vec![0x1b, b'[', b'5', b'~']);
    assert_eq!(encode(plain(KeyCode::PageDown)), vec![0x1b, b'[', b'6', b'~']);
    assert_eq!(encode(plain(KeyCode::Delete)), vec![0x1b, b'[', b'3', b'~']);
    assert_eq!(encode(plain(KeyCode::Insert)), vec![0x1b, b'[', b'2', b'~']);
    assert_eq!(encode(plain(KeyCode::BackTab)), vec![0x1b, b'[', b'Z']);
}

#[test]
fn simple_keys() {
    assert_eq!(encode(plain(KeyCode::Enter)), vec![b'\r']);
    assert_eq!(encode(plain(KeyCode::Tab)), vec![b'\t']);
    assert_eq!(encode(plain(KeyCode::Backspace)), vec![8u8]);
    assert_eq!(encode(ctrl(KeyCode::Backspace)), vec![127u8]);
    assert_eq!(encode(plain(KeyCode::Esc)), vec![0x1b]);
}

#[test]
fn function_keys_use_decimal_number() {
    assert_eq!(encode(plain(KeyCode::F(5))), vec![0x1b, b'[', b'1', b'6', b'~']);
    assert_eq!(encode(plain(KeyCode::F(1))), vec![0x1b, b'[', b'1', b'2', b'~']);
}

#[test]
fn printable_characters_are_utf8() {
    assert_eq!(encode(plain(KeyCode::Char('a'))), vec![b'a']);
    assert_eq!(encode(plain(KeyCode::Char('\u{e9}'))), vec![0xc3, 0xa9]);
    assert_eq!(encode(plain(KeyCode::Char('\u{20ac}'))), vec![0xe2, 0x82, 0xac]);
}

#[test]
fn alt_escape_gets_no_second_escape() {
    assert_eq!(encode(alt(KeyCode::Esc)), vec![0x1b]);
}

#[test]
fn ignored_keys_encode_to_nothing() {
    assert_eq!(encode(plain(KeyCode::CapsLock)), Vec::<u8>::new());
    assert_eq!(encode(plain(KeyCode::Other)), Vec::<u8>::new());
    assert_eq!(encode(alt(KeyCode::CapsLock)), Vec::<u8>::new());
}

#[test]
fn encoding_is_deterministic() {
    for k in [
        plain(KeyCode::Left),
        ctrl(KeyCode::Char('a')),
        alt(KeyCode::Down),
        plain(KeyCode::Char('x')),
        plain(KeyCode::F(7)),
    ] {
        assert_eq!(encode(k), encode(k));
    }
}

#[test]
fn named_keys_without_modifiers_are_nonempty() {
    for code in [
        KeyCode::Backspace,
        KeyCode::Enter,
        KeyCode::Left,
        KeyCode::Right,
        KeyCode::Up,
        KeyCode::Down,
        KeyCode::Home,
        KeyCode::End,
        KeyCode::PageUp,
        KeyCode::PageDown,
        KeyCode::Tab,
        KeyCode::BackTab,
        KeyCode::Delete,
        KeyCode::Insert,
        KeyCode::F(3),
        KeyCode::Esc,
    ] {
        assert!(!encode(plain(code)).is_empty());
    }
}

#[test]
fn chord_strings_are_canonical() {
    assert_eq!(key_event_to_string(ctrl(KeyCode::Char('q'))), Some("Ctrl-Q".to_string()));
    assert_eq!(key_event_to_string(alt(KeyCode::Char('h'))), Some("Alt-H".to_string()));
    let cas = KeyEvent { code: KeyCode::Char('b'), ctrl: true, alt: true, shift: true };
    assert_eq!(key_event_to_string(cas), Some("Ctrl-Alt-Shift-B".to_string()));
    assert_eq!(key_event_to_string(plain(KeyCode::F(2))), Some("F2".to_string()));
    assert_eq!(key_event_to_string(plain(KeyCode::BackTab)), Some("Shift-Tab".to_string()));
    assert_eq!(key_event_to_string(plain(KeyCode::Esc)), Some("Esc".to_string()));
    assert_eq!(key_event_to_string(plain(KeyCode::CapsLock)), None);
    assert_eq!(key_event_to_string(plain(KeyCode::Other)), None);
}
