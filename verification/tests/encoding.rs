//! UTF-16 encoding and decoding against std's own encoder and exact
//! expected values.

use odbc_core::to_u16s;
use odbc_core::utf16::utf16_to_string;

#[test]
fn to_u16s_ascii() {
    assert_eq!(to_u16s("ab"), vec![0x61, 0x62, 0]);
}

#[test]
fn to_u16s_empty_is_just_terminator() {
    assert_eq!(to_u16s(""), vec![0]);
}

#[test]
fn to_u16s_supplementary_uses_surrogate_pair() {
    // U+10348 encodes as the pair D800 DF48
    let s = "\u{10348}";
    assert_eq!(to_u16s(s), vec![0xD800, 0xDF48, 0]);
}

#[test]
fn to_u16s_matches_std_encoder() {
    let s = "Driver={x};Server=\u{00E9}\u{10348}";
    let mut expected: Vec<u16> = s.encode_utf16().collect();
    expected.push(0);
    assert_eq!(to_u16s(s), expected);
}

#[test]
fn decode_valid_units() {
    let units: Vec<u16> = "connexion \u{00E9}tablie \u{10348}".encode_utf16().collect();
    assert_eq!(utf16_to_string(&units).unwrap(), "connexion \u{00E9}tablie \u{10348}");
}

#[test]
fn decode_lone_surrogate_fails() {
    assert!(utf16_to_string(&vec![0x0041, 0xD800]).is_none());
    assert!(utf16_to_string(&vec![0xDC00, 0x0041]).is_none());
}

#[test]
fn decode_encode_round_trip() {
    let s = "test";
    let units: Vec<u16> = s.encode_utf16().collect();
    assert_eq!(utf16_to_string(&units).unwrap(), s);
}
