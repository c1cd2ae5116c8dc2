use lmdb_editor::pane::{lacks_open_new_tab, Pane};

#[test]
fn open_form_title() {
    assert_eq!(Pane::open_new().tab_title(), "Open new");
    assert!(Pane::open_new().is_open_new());
}

#[test]
fn missing_open_form_is_detected() {
    assert!(lacks_open_new_tab(&[]));
    let form = Pane::OpenNew { database_to_open: "users".to_string() };
    assert!(!lacks_open_new_tab(&[&form]));
}

#[test]
fn new_form_is_empty() {
    assert!(matches!(Pane::open_new(), Pane::OpenNew { database_to_open } if database_to_open.is_empty()));
}
