use lmdb_editor::escaped_entry::EscapedEntry;
use lmdb_editor::page::{MemCursor, PageView};

fn table(n: u32) -> Vec<(Vec<u8>, Vec<u8>)> {
    (0..n).map(|i| (vec![i as u8], format!("v{i}").into_bytes())).collect()
}

fn keys(rows: &[(Vec<u8>, Vec<u8>)]) -> Vec<u8> {
    rows.iter().map(|r| r.0[0]).collect()
}

#[test]
fn sequential_windows_reuse_the_cursor() {
    let mut view = PageView::new(MemCursor::new(table(100)));
    let first = view.window(0, 10).unwrap();
    assert_eq!(keys(&first), (0..10).collect::<Vec<u8>>());
    let second = view.window(10, 10).unwrap();
    assert_eq!(keys(&second), (10..20).collect::<Vec<u8>>());
    assert_eq!(view.into_cursor().calls(), 20);
}

#[test]
fn cold_window_skips_to_start() {
    let mut view = PageView::new(MemCursor::new(table(10)));
    let rows = view.window(5, 3).unwrap();
    assert_eq!(keys(&rows), vec![5, 6, 7]);
    assert_eq!(rows[0].1, b"v5".to_vec());
    assert_eq!(view.into_cursor().calls(), 8);
}

#[test]
fn backward_jump_restarts() {
    let mut view = PageView::new(MemCursor::new(table(10)));
    assert_eq!(keys(&view.window(4, 2).unwrap()), vec![4, 5]);
    assert_eq!(keys(&view.window(1, 2).unwrap()), vec![1, 2]);
    assert_eq!(view.into_cursor().calls(), 6 + 3);
}

#[test]
fn window_past_the_end_is_empty() {
    let mut view = PageView::new(MemCursor::new(table(10)));
    assert!(view.window(10, 5).unwrap().is_empty());
    assert!(view.window(50, 5).unwrap().is_empty());
}

#[test]
fn window_stops_at_the_last_row() {
    let mut view = PageView::new(MemCursor::new(table(10)));
    assert_eq!(keys(&view.window(8, 5).unwrap()), vec![8, 9]);
}

#[test]
fn empty_table_gives_no_rows() {
    let mut view = PageView::new(MemCursor::new(Vec::new()));
    assert!(view.window(0, 10).unwrap().is_empty());
}

#[test]
fn escaped_key_reaches_the_table_and_reads_back() {
    let typed = EscapedEntry { key: "a\\x00b".to_string(), data: "value".to_string() };
    let key = typed.decoded_key().unwrap();
    assert_eq!(key, vec![0x61, 0x00, 0x62]);
    let rows = vec![(key.clone(), typed.decoded_data().unwrap())];
    let mut view = PageView::new(MemCursor::new(rows));
    let got = view.window(0, 1).unwrap();
    let shown = EscapedEntry::from_row(&got[0].0, &got[0].1);
    assert_eq!(shown.decoded_key().unwrap(), vec![0x61, 0x00, 0x62]);
}

#[test]
fn zero_length_window_reads_nothing() {
    let mut view = PageView::new(MemCursor::new(table(10)));
    assert!(view.window(3, 0).unwrap().is_empty());
    assert_eq!(view.into_cursor().calls(), 3);
}
