use lmdb_editor::codec::{decode, encode, encode_pretty, CodecError};

fn round_trips(b: &[u8]) {
    assert_eq!(decode(&encode(b)).unwrap(), b.to_vec());
    assert_eq!(decode(&encode_pretty(b)).unwrap(), b.to_vec());
}

#[test]
fn round_trip_empty() {
    assert_eq!(encode(b""), "");
    assert_eq!(encode_pretty(b""), "");
    round_trips(b"");
}

#[test]
fn round_trip_every_single_byte() {
    for v in 0..=255u8 {
        round_trips(&[v]);
    }
}

#[test]
fn round_trip_embedded_nul_and_invalid_utf8() {
    round_trips(b"a\x00b");
    round_trips(b"\xff\xfe\x80abc\xc3");
    round_trips(b"\xe2\x82");
    round_trips("h\u{e9}llo \u{1F600}\n\t\r\\x00".as_bytes());
}

#[test]
fn round_trip_long_sequence() {
    let b: Vec<u8> = (0..10_000u32).map(|i| (i * 7 % 256) as u8).collect();
    round_trips(&b);
}

#[test]
fn encode_escapes_non_printable_bytes() {
    assert_eq!(encode(b"foo\xFF\nbar"), r"foo\xFF\nbar");
    assert_eq!(encode(b"a\x00b"), r"a\x00b");
}

#[test]
fn pretty_keeps_line_breaks() {
    assert_eq!(encode_pretty(b"foo\xFF\nbar"), "foo\\xFF\nbar");
    assert_eq!(encode_pretty(b"a\tb\r\n"), "a\tb\r\n");
}

#[test]
fn decode_escaped_nul() {
    assert_eq!(decode("a\\x00b").unwrap(), vec![0x61, 0x00, 0x62]);
    assert_eq!(decode("plain text").unwrap(), b"plain text".to_vec());
}

#[test]
fn decode_rejects_truncated_escape() {
    assert!(matches!(decode("ab\\x0"), Err(CodecError::Malformed { .. })));
    assert!(matches!(decode("ab\\"), Err(CodecError::Malformed { index: 2 })));
}

#[test]
fn decode_rejects_bad_hex_digits() {
    assert!(matches!(decode("\\xZZ"), Err(CodecError::Malformed { index: 0 })));
}

#[test]
fn decode_rejects_value_above_a_byte() {
    assert!(matches!(decode("x\\u00D800"), Err(CodecError::Malformed { index: 1 })));
}

#[test]
fn decode_rejects_escape_cut_by_multibyte_char() {
    assert!(matches!(decode("\\x0\u{e9}"), Err(CodecError::Malformed { index: 0 })));
    assert!(matches!(decode("ab\\u0000\u{20ac}"), Err(CodecError::Malformed { index: 2 })));
    assert_eq!(decode("\u{e9}\\x41").unwrap(), vec![0xc3, 0xa9, 0x41]);
}
