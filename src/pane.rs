//! What each tab of the editor shows: the rows of one table, or the form that
//! opens another table.
use vstd::prelude::*;
use crate::escaped_entry::EscapedEntry;
use vstd::utf8::encode_utf8;

use crate::heed_api::{nul_free, StoreTable};
use crate::table::{open_table, table_name, OpenError};
use crate::txn::{Txn, TxnMode};

verus! {

/// The title of the unnamed main table.
pub open spec fn main_title() -> Seq<char> {
    seq!['{', 'm', 'a', 'i', 'n', '}']
}

/// The title of the form that opens a table.
pub open spec fn open_new_title() -> Seq<char> {
    seq!['O', 'p', 'e', 'n', ' ', 'n', 'e', 'w']
}

/// One tab of the editor.
pub enum Pane {
    /// The rows of a table, with the entry being edited for it. `None` names
    /// the main table.
    DatabaseEntries { database_name: Option<String>, database: StoreTable, entry_to_insert: EscapedEntry },
    /// A form holding the name of the table to open next.
    OpenNew { database_to_open: String },
}

impl Pane {
    pub fn is_open_new(&self) -> (r: bool)
        ensures
            r == (self is OpenNew),
    {
        match self {
            Pane::OpenNew { .. } => true,
            Pane::DatabaseEntries { .. } => false,
        }
    }

    /// The text on the pane's tab: the table's name, `{main}` for the main
    /// table, `Open new` for the form.
    pub fn tab_title(&self) -> (r: String)
        ensures
            self is OpenNew ==> r@ == open_new_title(),
            self is DatabaseEntries && self->database_name is None ==> r@ == main_title(),
            self is DatabaseEntries && self->database_name is Some ==> r@ == self->database_name->Some_0@,
    {
        match self {
            Pane::DatabaseEntries { database_name: Some(name), .. } => name.clone(),
            Pane::DatabaseEntries { database_name: None, .. } => {
                proof {
                    reveal_strlit("{main}");
                }
                "{main}".to_owned()
            },
            Pane::OpenNew { .. } => {
                proof {
                    reveal_strlit("Open new");
                }
                "Open new".to_owned()
            },
        }
    }
}

impl Pane {
    /// An empty form for opening a table.
    pub fn open_new() -> (r: Pane)
        ensures
            r is OpenNew,
            r->database_to_open@.len() == 0,
    {
        Pane::OpenNew { database_to_open: String::new() }
    }

    /// The rows of `database`, with nothing being edited yet.
    pub fn entries(database_name: Option<String>, database: StoreTable) -> (r: Pane)
        ensures
            r is DatabaseEntries,
            r->database_name == database_name,
            r->database == database,
            r->entry_to_insert.key@.len() == 0,
            r->entry_to_insert.data@.len() == 0,
    {
        Pane::DatabaseEntries { database_name, database, entry_to_insert: EscapedEntry::default() }
    }

    /// Opens the table named in the form (the main table for an empty name)
    /// and turns the pane into that table's rows; the errors are those of
    /// `open_table`. Where the table cannot be opened the form keeps its
    /// text. Any other pane is left alone.
    pub fn open_from_form(&mut self, txn: &Txn) -> (r: Result<(), OpenError>)
        requires
            txn.wf(),
        ensures
            (*old(self)) is DatabaseEntries ==> r is Ok && *final(self) == *old(self),
            r is Err ==> *final(self) == *old(self),
            (*old(self)) is OpenNew && r is Ok ==> (*final(self)) is DatabaseEntries
                && (*final(self))->database.env() == txn.env()
                && ((*old(self))->database_to_open@.len() == 0 <==> (*final(self))->database_name is None)
                && ((*final(self))->database_name is Some ==> (*final(self))->database_name->Some_0@ == (*old(self))->database_to_open@)
                && (*final(self))->entry_to_insert.key@.len() == 0
                && (*final(self))->entry_to_insert.data@.len() == 0,
            (*old(self)) is OpenNew && !nul_free(encode_utf8((*old(self))->database_to_open@)) ==> r is Err
                && r->Err_0 is BadName,
            (*old(self)) is OpenNew && nul_free(encode_utf8((*old(self))->database_to_open@)) && txn.mode() == TxnMode::Closed
                ==> r is Err && r->Err_0 is Store && r->Err_0->Store_0 is NoTransaction,
            (*old(self)) is OpenNew && nul_free(encode_utf8((*old(self))->database_to_open@)) && txn.mode() != TxnMode::Closed
                ==> r is Ok || r->Err_0 is NotFound || (r->Err_0 is Store && r->Err_0->Store_0 is Table),
    {
        let name = match self {
            Pane::OpenNew { database_to_open } => table_name(database_to_open.as_str()),
            Pane::DatabaseEntries { .. } => {
                return Ok(());
            },
        };
        let opened = match &name {
            Some(n) => open_table(txn, Some(n.as_str())),
            None => open_table(txn, None),
        };
        match opened {
            Ok(t) => {
                *self = Pane::entries(name, t);
                Ok(())
            },
            Err(e) => Err(e),
        }
    }
}

/// None of the tabs is a form for opening a table, so one must be added.
pub fn lacks_open_new_tab(tabs: &[&Pane]) -> (r: bool)
    ensures
        r == !(exists|i: int| 0 <= i < tabs@.len() && *tabs@[i] is OpenNew),
{
    let mut i: usize = 0;
    while i < tabs.len()
        invariant
            i <= tabs@.len(),
            forall|j: int| 0 <= j < i ==> !(*tabs@[j] is OpenNew),
        decreases tabs@.len() - i,
    {
        if tabs[i].is_open_new() {
            return false;
        }
        i = i + 1;
    }
    true
}

} // verus!
