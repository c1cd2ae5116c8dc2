use lmdb_editor::codec::CodecError;
use lmdb_editor::escaped_entry::EscapedEntry;
use lmdb_editor::table::{decoded_entry, name_is_nul_free, table_name, EditError};

#[test]
fn clear_empties_both_texts() {
    let mut e = EscapedEntry { key: "k".to_string(), data: "v".to_string() };
    e.clear();
    assert_eq!(e.key, "");
    assert_eq!(e.data, "");
}

#[test]
fn default_entry_is_empty() {
    let e = EscapedEntry::default();
    assert_eq!(e.key, "");
    assert_eq!(e.data, "");
}

#[test]
fn row_copied_into_entry_decodes_back() {
    let e = EscapedEntry::from_row(b"a\x00b", b"line one\nline two\xff");
    assert_eq!(e.key, "a\\x00b");
    assert_eq!(e.data, "line one\nline two\\xFF");
    assert_eq!(e.decoded_key().unwrap(), b"a\x00b".to_vec());
    assert_eq!(e.decoded_data().unwrap(), b"line one\nline two\xff".to_vec());
}

#[test]
fn malformed_text_is_reported() {
    let e = EscapedEntry { key: "ok".to_string(), data: "bad\\x".to_string() };
    assert_eq!(e.decoded_key().unwrap(), b"ok".to_vec());
    assert!(matches!(e.decoded_data(), Err(CodecError::Malformed { index: 3 })));
}

#[test]
fn decoded_entry_names_the_bad_text() {
    let bad_key = EscapedEntry { key: "\\q".to_string(), data: "x".to_string() };
    assert!(matches!(decoded_entry(&bad_key), Err(EditError::Key(_))));
    let bad_data = EscapedEntry { key: "k".to_string(), data: "\\xG0".to_string() };
    assert!(matches!(decoded_entry(&bad_data), Err(EditError::Data(_))));
    let good = EscapedEntry { key: "a\\x00b".to_string(), data: "v".to_string() };
    assert_eq!(decoded_entry(&good).unwrap(), (vec![0x61, 0x00, 0x62], b"v".to_vec()));
}

#[test]
fn empty_name_means_main_table() {
    assert_eq!(table_name(""), None);
    assert_eq!(table_name("users"), Some("users".to_string()));
}

#[test]
fn names_with_nul_are_detected() {
    assert!(name_is_nul_free("users"));
    assert!(name_is_nul_free(""));
    assert!(!name_is_nul_free("us\0ers"));
}
