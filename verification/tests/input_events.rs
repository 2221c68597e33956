use dos_like::input::{
    collect_chars, collect_keys, KeyCode, KEYCOUNT, KEY_0, KEY_9, KEY_A, KEY_ESCAPE, KEY_F1,
    KEY_F24, KEY_HANGUL, KEY_HANJA, KEY_INVALID, KEY_KANA, KEY_KANJI, KEY_OEM_CLEAR, KEY_RETURN,
    KEY_SPACE, KEY_Z,
};

#[test]
fn key_code_round_trip() {
    let k = KeyCode::from_code(65);
    assert_eq!(k.code(), 65);
    assert_eq!(u32::from(k), 65);
    assert_eq!(KeyCode::from_code(65), k);
}

#[test]
fn key_constants_follow_native_numbering() {
    assert_eq!(KEY_INVALID, 0);
    assert_eq!(KEY_RETURN, 10);
    assert_eq!(KEY_ESCAPE, 20);
    assert_eq!(KEY_SPACE, 25);
    assert_eq!(KEY_0, 41);
    assert_eq!(KEY_9, 50);
    assert_eq!(KEY_A, 51);
    assert_eq!(KEY_Z, 76);
    assert_eq!(KEY_F1, 97);
    assert_eq!(KEY_F24, 120);
    assert_eq!(KEY_OEM_CLEAR, 169);
    assert_eq!(KEYCOUNT, 170);
    assert_eq!(KEY_HANGUL, KEY_KANA);
    assert_eq!(KEY_KANJI, KEY_HANJA);
    assert_eq!(KeyCode::from_code(KEY_RETURN).code(), KEY_RETURN);
}

#[test]
fn collect_keys_stops_at_terminator() {
    let raw = [65u32, 66, 67, 0, 68, 69];
    let keys = collect_keys(&raw);
    assert_eq!(keys.len(), 3);
    assert_eq!(keys[0].code(), 65);
    assert_eq!(keys[1].code(), 66);
    assert_eq!(keys[2].code(), 67);
}

#[test]
fn collect_keys_takes_whole_buffer_without_terminator() {
    let raw = [1u32, 2, 3];
    let keys = collect_keys(&raw);
    assert_eq!(keys.len(), 3);
    assert_eq!(keys[2].code(), 3);
}

#[test]
fn collect_keys_empty_cases() {
    assert!(collect_keys(&[]).is_empty());
    assert!(collect_keys(&[0u32, 7, 8]).is_empty());
}

#[test]
fn collect_chars_stops_at_terminator() {
    let raw = [b'h', b'i', 0, b'!'];
    let chars = collect_chars(&raw);
    assert_eq!(chars, vec![b'h', b'i']);
}

#[test]
fn collect_chars_empty_cases() {
    assert!(collect_chars(&[]).is_empty());
    assert!(collect_chars(&[0u8, 1]).is_empty());
}
