//! Column-buffer clamping and decoding, exercised on concrete values.

use odbc_core::binder::ColumnBuffer;
use odbc_core::driver::ColumnWrite;

fn utf16le_bytes(s: &str) -> Vec<u8> {
    let mut out = Vec::new();
    for unit in s.encode_utf16() {
        out.push((unit & 0xFF) as u8);
        out.push((unit >> 8) as u8);
    }
    out
}

#[test]
fn binary_clamp_indicator_over_capacity() {
    let buf = ColumnBuffer { data: vec![7u8; 8], indicator: 9999 };
    let v = buf.binary_value();
    assert_eq!(v.len(), 8);
    assert!(v.len() <= buf.data.len());
}

#[test]
fn binary_clamp_negative_indicator() {
    let buf = ColumnBuffer { data: vec![7u8; 8], indicator: -1 };
    assert_eq!(buf.binary_value().len(), 0);
    let buf2 = ColumnBuffer { data: vec![7u8; 8], indicator: -400 };
    assert_eq!(buf2.binary_value().len(), 0);
}

#[test]
fn binary_clamp_exact() {
    let buf = ColumnBuffer { data: vec![1, 2, 3, 4, 5, 6, 7, 8], indicator: 3 };
    assert_eq!(buf.binary_value(), vec![1, 2, 3]);
}

#[test]
fn text_clamp_indicator_over_capacity() {
    let data = utf16le_bytes("abcd");
    let buf = ColumnBuffer { data, indicator: 5000 };
    let s = buf.text_value();
    assert_eq!(s, "abcd");
    assert!(s.encode_utf16().count() * 2 <= 8);
}

#[test]
fn text_negative_indicator_is_empty() {
    let buf = ColumnBuffer { data: utf16le_bytes("abcd"), indicator: -1 };
    assert_eq!(buf.text_value(), "");
}

#[test]
fn text_invalid_units_degrade_to_empty() {
    // a lone leading surrogate is not a valid encoding
    let buf = ColumnBuffer { data: vec![0x00, 0xD8], indicator: 2 };
    assert_eq!(buf.text_value(), "");
}

#[test]
fn text_round_trip_test_value() {
    // the 4-character value written by a source survives the wide trip
    let data = utf16le_bytes("test");
    assert_eq!(data.len(), 8);
    let buf = ColumnBuffer { data, indicator: 8 };
    assert_eq!(buf.text_value(), "test");
}

#[test]
fn updated_writes_front_and_keeps_tail() {
    let buf = ColumnBuffer::with_capacity(4);
    let buf = buf.updated(&ColumnWrite { indicator: 2, bytes: vec![9, 8] });
    assert_eq!(buf.indicator, 2);
    assert_eq!(buf.data, vec![9, 8, 0, 0]);
    // a longer write than the region truncates at the capacity
    let buf = buf.updated(&ColumnWrite { indicator: 6, bytes: vec![1, 2, 3, 4, 5, 6] });
    assert_eq!(buf.data, vec![1, 2, 3, 4]);
    assert_eq!(buf.indicator, 6);
}
