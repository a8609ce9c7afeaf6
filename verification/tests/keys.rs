use remote_serial::keys::{translate, utf8_encode, KeyCode, KeyStroke};

fn plain(code: KeyCode) -> KeyStroke {
    KeyStroke { code, ctrl: false }
}

fn ctrl(code: KeyCode) -> KeyStroke {
    KeyStroke { code, ctrl: true }
}

#[test]
fn named_keys_translate_to_their_control_sequences() {
    assert_eq!(translate(plain(KeyCode::Backspace)), Some(vec![0x08]));
    assert_eq!(translate(plain(KeyCode::Enter)), Some(vec![0x0D]));
    assert_eq!(translate(plain(KeyCode::Left)), Some(b"\x1b[D".to_vec()));
    assert_eq!(translate(plain(KeyCode::Right)), Some(b"\x1b[C".to_vec()));
    assert_eq!(translate(plain(KeyCode::Home)), Some(b"\x1b[H".to_vec()));
    assert_eq!(translate(plain(KeyCode::End)), Some(b"\x1b[F".to_vec()));
    assert_eq!(translate(plain(KeyCode::Up)), Some(b"\x1b[A".to_vec()));
    assert_eq!(translate(plain(KeyCode::Down)), Some(b"\x1b[B".to_vec()));
    assert_eq!(translate(plain(KeyCode::Tab)), Some(vec![0x09]));
    assert_eq!(translate(plain(KeyCode::Delete)), Some(b"\x1b[3~".to_vec()));
    assert_eq!(translate(plain(KeyCode::Insert)), Some(b"\x1b[2~".to_vec()));
    assert_eq!(translate(plain(KeyCode::Esc)), Some(vec![0x1B]));
}

#[test]
fn unknown_keys_are_ignored() {
    assert_eq!(translate(plain(KeyCode::Other)), None);
    assert_eq!(translate(ctrl(KeyCode::Other)), None);
}

#[test]
fn ctrl_lowercase_letters_and_space_mask_to_control_codes() {
    for ch in 'a'..='z' {
        let out = translate(ctrl(KeyCode::Printable(ch))).unwrap();
        assert_eq!(out, vec![(ch as u8) & 0x1F]);
    }
    assert_eq!(translate(ctrl(KeyCode::Printable(' '))), Some(vec![0x00]));
    // The conventional control codes come out: Ctrl+A is 0x01.
    assert_eq!(translate(ctrl(KeyCode::Printable('a'))), Some(vec![0x01]));
}

#[test]
fn ctrl_digits_4_to_7_shift_then_mask() {
    for ch in '4'..='7' {
        let out = translate(ctrl(KeyCode::Printable(ch))).unwrap();
        assert_eq!(out, vec![(ch as u8 + 8) & 0x1F]);
    }
    assert_eq!(translate(ctrl(KeyCode::Printable('4'))), Some(vec![0x1C]));
    assert_eq!(translate(ctrl(KeyCode::Printable('7'))), Some(vec![0x1F]));
}

#[test]
fn other_ctrl_characters_fall_back_to_utf8() {
    assert_eq!(translate(ctrl(KeyCode::Printable('A'))), Some(vec![0x41]));
    assert_eq!(translate(ctrl(KeyCode::Printable('9'))), Some(vec![0x39]));
    assert_eq!(translate(ctrl(KeyCode::Printable('é'))), Some("é".as_bytes().to_vec()));
}

#[test]
fn plain_printable_characters_encode_as_utf8() {
    assert_eq!(translate(plain(KeyCode::Printable('A'))), Some(vec![0x41]));
    assert_eq!(translate(plain(KeyCode::Printable('z'))), Some(vec![0x7A]));
    assert_eq!(translate(plain(KeyCode::Printable(' '))), Some(vec![0x20]));
}

#[test]
fn utf8_encoder_matches_std_at_every_width() {
    for ch in ['\u{0}', 'a', '~', '\u{7F}', '\u{80}', 'é', '\u{7FF}', '\u{800}', '€', '\u{FFFD}', '\u{10000}', '𝄞', '\u{10FFFF}'] {
        let mut buf = [0u8; 4];
        let expected = ch.encode_utf8(&mut buf).as_bytes().to_vec();
        assert_eq!(utf8_encode(ch), expected, "mismatch for {:?}", ch);
    }
}
