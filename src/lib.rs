//! Browsing and editing of an LMDB store: the escape codec that shows binary
//! keys and values as editable text, the transaction manager that keeps exactly
//! one transaction open, and a windowed view over a table's rows.
pub mod codec;
pub mod escaped_entry;
pub mod heed_api;
pub mod txn;
pub mod page;
pub mod pane;
pub mod table;
