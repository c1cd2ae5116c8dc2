//! Tables of the store as the editor uses them: opening by name, reading rows
//! through a cursor, and writing an edited entry.
use vstd::prelude::*;
use vstd::string::StringSliceAdditionalSpecFns;

use crate::codec::{decodable, stfu8_bytes, CodecError};
use crate::escaped_entry::EscapedEntry;
use crate::heed_api::{has_key, iter_next, nul_free, open_table_in, table_iter, table_len, Reader, StoreTable, TableRows};
use crate::page::{row_view, RowCursor, RowView};
use crate::txn::{StoreError, Txn, TxnMode};

verus! {

/// Why an edit of a table was not applied.
#[derive(Debug)]
pub enum EditError {
    /// Only the write transaction can change a table.
    NotWriting,
    /// The key's text does not decode.
    Key(CodecError),
    /// The value's text does not decode.
    Data(CodecError),
    /// The engine refused the change.
    Store(StoreError),
}

/// Why a table could not be opened for reading.
#[derive(Debug)]
pub enum OpenError {
    /// No table has that name; reading never creates one.
    NotFound,
    /// A table name cannot hold the NUL character.
    BadName,
    Store(StoreError),
}

/// The table that a typed name stands for: the empty text names the unnamed
/// main table.
pub fn table_name(text: &str) -> (r: Option<String>)
    ensures
        r is None <==> text@.len() == 0,
        r is Some ==> r->Some_0@ == text@,
{
    if text.is_empty() {
        None
    } else {
        Some(text.to_owned())
    }
}

/// The name holds no NUL byte.
pub fn name_is_nul_free(name: &str) -> (r: bool)
    ensures
        r == nul_free(name.spec_bytes()),
{
    let b = name.as_bytes();
    let mut i: usize = 0;
    while i < b.len()
        invariant
            i <= b@.len(),
            b@ == name.spec_bytes(),
            forall|j: int| 0 <= j < i ==> b@[j] != 0,
        decreases b@.len() - i,
    {
        if b[i] == 0 {
            return false;
        }
        i = i + 1;
    }
    true
}

/// What the engine's answer to a table lookup means: no such table is
/// `NotFound`, an engine error is passed on.
pub fn table_lookup(found: Result<Option<StoreTable>, heed::Error>) -> (r: Result<StoreTable, OpenError>)
    ensures
        found is Ok && found->Ok_0 is Some ==> r is Ok && r->Ok_0 == found->Ok_0->Some_0,
        found is Ok && found->Ok_0 is None ==> r is Err && r->Err_0 is NotFound,
        found is Err ==> r is Err && r->Err_0 is Store && r->Err_0->Store_0 is Table
            && r->Err_0->Store_0->Table_0 == found->Err_0,
{
    match found {
        Ok(Some(t)) => Ok(t),
        Ok(None) => Err(OpenError::NotFound),
        Err(e) => Err(OpenError::Store(StoreError::Table(e))),
    }
}

/// Opens an existing table under the current transaction, as `table_lookup`
/// reads the engine's answer. A name holding NUL is refused first, and no
/// lookup is made where no transaction is open.
pub fn open_table(txn: &Txn, name: Option<&str>) -> (r: Result<StoreTable, OpenError>)
    requires
        txn.wf(),
    ensures
        name is Some && !nul_free(name->Some_0.spec_bytes()) ==> r is Err && r->Err_0 is BadName,
        (name is None || nul_free(name->Some_0.spec_bytes())) && txn.mode() == TxnMode::Closed ==> r is Err
            && r->Err_0 is Store && r->Err_0->Store_0 is NoTransaction,
        (name is None || nul_free(name->Some_0.spec_bytes())) && txn.mode() != TxnMode::Closed ==> r is Ok
            || r->Err_0 is NotFound || (r->Err_0 is Store && r->Err_0->Store_0 is Table),
        r is Ok ==> r->Ok_0.env() == txn.env(),
{
    match name {
        Some(n) => {
            if !name_is_nul_free(n) {
                return Err(OpenError::BadName);
            }
        },
        None => {},
    }
    match txn.reader() {
        Some(rd) => table_lookup(open_table_in(&rd, name)),
        None => Err(OpenError::Store(StoreError::NoTransaction)),
    }
}

/// Makes sure the main table exists. Where no write transaction is open, one
/// is opened for this and committed (or, where the table cannot be made,
/// aborted) before returning.
pub fn create_main_table(txn: &mut Txn) -> (r: Result<StoreTable, StoreError>)
    requires
        old(txn).wf(),
    ensures
        final(txn).wf(),
        final(txn).env() == old(txn).env(),
        old(txn).mode() == TxnMode::ReadWrite ==> final(txn).mode() == TxnMode::ReadWrite,
        old(txn).mode() != TxnMode::ReadWrite ==> final(txn).mode() != TxnMode::ReadWrite,
        old(txn).mode() != TxnMode::ReadWrite && r is Ok ==> final(txn).mode() == TxnMode::ReadOnly,
        r is Err ==> !(r->Err_0 is NoTransaction),
        r is Ok ==> r->Ok_0.env() == old(txn).env(),
{
    if txn.is_writing() {
        return txn.create_table(None);
    }
    match txn.begin_write() {
        Ok(()) => {},
        Err(e) => {
            return Err(e);
        },
    }
    match txn.create_table(None) {
        Ok(t) => match txn.commit() {
            Ok(()) => Ok(t),
            Err(e) => Err(e),
        },
        Err(e) => {
            let _ = txn.abort();
            Err(e)
        },
    }
}

/// The number of rows of the table under the current transaction.
pub fn row_count(table: &StoreTable, txn: &Txn) -> (r: Result<u64, StoreError>)
    requires
        txn.wf(),
        table.env() == txn.env(),
    ensures
        txn.mode() == TxnMode::Closed ==> r is Err && r->Err_0 is NoTransaction,
        r is Err && txn.mode() != TxnMode::Closed ==> r->Err_0 is Table,
        r is Ok ==> r->Ok_0 == txn.rows(*table).len(),
{
    match txn.reader() {
        Some(rd) => match table_len(table, &rd) {
            Ok(n) => Ok(n),
            Err(e) => Err(StoreError::Table(e)),
        },
        None => Err(StoreError::NoTransaction),
    }
}

/// Decodes both texts of the entry: the key first, then the value.
pub fn decoded_entry(entry: &EscapedEntry) -> (r: Result<(Vec<u8>, Vec<u8>), EditError>)
    ensures
        r is Ok <==> decodable(entry.key@) && decodable(entry.data@),
        r is Ok ==> r->Ok_0.0@ == stfu8_bytes(entry.key@)->0 && r->Ok_0.1@ == stfu8_bytes(entry.data@)->0,
        !decodable(entry.key@) ==> r is Err && r->Err_0 is Key,
        decodable(entry.key@) && !decodable(entry.data@) ==> r is Err && r->Err_0 is Data,
{
    let key = match entry.decoded_key() {
        Ok(k) => k,
        Err(e) => {
            return Err(EditError::Key(e));
        },
    };
    match entry.decoded_data() {
        Ok(d) => Ok((key, d)),
        Err(e) => Err(EditError::Data(e)),
    }
}

/// Stores the entry's decoded value under its decoded key within the write
/// transaction, and clears the entry. Where there is no write transaction,
/// a text is malformed or the engine refuses, nothing is written and the
/// entry stays as it is, for the user to correct.
pub fn put_entry(txn: &mut Txn, table: &StoreTable, entry: &mut EscapedEntry) -> (r: Result<(), EditError>)
    requires
        old(txn).wf(),
        table.env() == old(txn).env(),
    ensures
        final(txn).wf(),
        final(txn).env() == old(txn).env(),
        final(txn).mode() == old(txn).mode(),
        old(txn).mode() != TxnMode::ReadWrite ==> r is Err && r->Err_0 is NotWriting,
        old(txn).mode() == TxnMode::ReadWrite && !decodable(old(entry).key@) ==> r is Err && r->Err_0 is Key,
        old(txn).mode() == TxnMode::ReadWrite && decodable(old(entry).key@) && !decodable(old(entry).data@) ==> r is Err && r->Err_0 is Data,
        old(txn).mode() == TxnMode::ReadWrite && decodable(old(entry).key@) && decodable(old(entry).data@) ==> r is Ok
            || (r->Err_0 is Store && r->Err_0->Store_0 is Table),
        r is Ok ==> final(entry).key@.len() == 0 && final(entry).data@.len() == 0,
        r is Err ==> *final(entry) == *old(entry),
        r is Err && !(r->Err_0 is Store) ==> *final(txn) == *old(txn),
        r is Ok ==> final(txn).rows(*table).contains(
            (stfu8_bytes(old(entry).key@)->Some_0, stfu8_bytes(old(entry).data@)->Some_0),
        ),
        r is Ok ==> forall|p: (Seq<u8>, Seq<u8>)|
            p.0 != stfu8_bytes(old(entry).key@)->Some_0 ==> (#[trigger] final(txn).rows(*table).contains(p)
                == old(txn).rows(*table).contains(p)),
{
    if !txn.is_writing() {
        return Err(EditError::NotWriting);
    }
    let (key, data) = match decoded_entry(entry) {
        Ok(kd) => kd,
        Err(e) => {
            return Err(e);
        },
    };
    match txn.put(table, key.as_slice(), data.as_slice()) {
        Ok(()) => {
            entry.clear();
            Ok(())
        },
        Err(e) => Err(EditError::Store(e)),
    }
}

/// Removes the entry's decoded key from the table within the write
/// transaction, and clears the entry; `Ok(false)` where the key was absent.
/// Only the key's text is read. Where there is no write transaction, the key
/// is malformed or the engine refuses, the entry stays as it is.
pub fn delete_entry(txn: &mut Txn, table: &StoreTable, entry: &mut EscapedEntry) -> (r: Result<bool, EditError>)
    requires
        old(txn).wf(),
        table.env() == old(txn).env(),
    ensures
        final(txn).wf(),
        final(txn).env() == old(txn).env(),
        final(txn).mode() == old(txn).mode(),
        old(txn).mode() != TxnMode::ReadWrite ==> r is Err && r->Err_0 is NotWriting,
        old(txn).mode() == TxnMode::ReadWrite && !decodable(old(entry).key@) ==> r is Err && r->Err_0 is Key,
        old(txn).mode() == TxnMode::ReadWrite && decodable(old(entry).key@) ==> r is Ok
            || (r->Err_0 is Store && r->Err_0->Store_0 is Table),
        r is Ok ==> final(entry).key@.len() == 0 && final(entry).data@.len() == 0,
        r is Err ==> *final(entry) == *old(entry),
        r is Err && !(r->Err_0 is Store) ==> *final(txn) == *old(txn),
        r is Ok ==> r->Ok_0 == has_key(old(txn).rows(*table), stfu8_bytes(old(entry).key@)->Some_0),
        r is Ok ==> forall|p: (Seq<u8>, Seq<u8>)|
            #[trigger] final(txn).rows(*table).contains(p) ==> p.0 != stfu8_bytes(old(entry).key@)->Some_0,
        r is Ok ==> forall|p: (Seq<u8>, Seq<u8>)|
            p.0 != stfu8_bytes(old(entry).key@)->Some_0 ==> (#[trigger] final(txn).rows(*table).contains(p)
                == old(txn).rows(*table).contains(p)),
{
    if !txn.is_writing() {
        return Err(EditError::NotWriting);
    }
    let key = match entry.decoded_key() {
        Ok(k) => k,
        Err(e) => {
            return Err(EditError::Key(e));
        },
    };
    match txn.delete(table, key.as_slice()) {
        Ok(found) => {
            entry.clear();
            Ok(found)
        },
        Err(e) => Err(EditError::Store(e)),
    }
}

/// A cursor over a table's rows in key order, under one transaction.
pub struct TableCursor<'t> {
    table: &'t StoreTable,
    rd: Reader<'t>,
    iter: TableRows<'t>,
    count: usize,
    taken: Ghost<Seq<RowView>>,
    at_end: bool,
    steps: Ghost<nat>,
}

impl<'t> TableCursor<'t> {
    /// A cursor before the first row of `table` as `txn` sees it.
    pub fn open(table: &'t StoreTable, txn: &'t Txn) -> (r: Result<TableCursor<'t>, StoreError>)
        requires
            txn.wf(),
            table.env() == txn.env(),
        ensures
            r is Ok ==> r->Ok_0.wf() && r->Ok_0.taken().len() == 0 && !r->Ok_0.ended(),
            r is Ok ==> r->Ok_0.pool() == txn.rows(*table),
            txn.mode() == TxnMode::Closed ==> r is Err && r->Err_0 is NoTransaction,
            r is Err && txn.mode() != TxnMode::Closed ==> r->Err_0 is Table,
    {
        let rd = match txn.reader() {
            Some(rd) => rd,
            None => {
                return Err(StoreError::NoTransaction);
            },
        };
        match table_iter(table, &rd) {
            Ok(iter) => Ok(TableCursor { table, rd, iter, count: 0, taken: Ghost(Seq::empty()), at_end: false, steps: Ghost(0) }),
            Err(e) => Err(StoreError::Table(e)),
        }
    }
}

impl<'t> RowCursor for TableCursor<'t> {
    closed spec fn taken(&self) -> Seq<RowView> {
        self.taken@
    }

    closed spec fn ended(&self) -> bool {
        self.at_end
    }

    closed spec fn wf(&self) -> bool {
        &&& self.count == self.taken@.len()
        &&& self.table.env() == self.rd.env()
        &&& self.iter.rows() == self.rd.rows(*self.table)
    }

    closed spec fn pool(&self) -> Set<RowView> {
        self.iter.rows()
    }

    /// The order is the table's own comparator, which the store may have
    /// set otherwise than byte by byte.
    closed spec fn keeps_key_order(&self) -> bool {
        false
    }

    /// What the engine hands out is not known here.
    closed spec fn exact(&self) -> bool {
        false
    }

    closed spec fn source(&self) -> Seq<RowView> {
        Seq::empty()
    }

    closed spec fn steps(&self) -> nat {
        self.steps@
    }

    proof fn lemma_taken_from_source(&self) {
    }

    fn taken_len(&self) -> (r: usize) {
        self.count
    }

    fn next_row(&mut self) -> (r: Option<Result<(Vec<u8>, Vec<u8>), StoreError>>) {
        self.steps = Ghost(self.steps@ + 1);
        match iter_next(&mut self.iter) {
            Some(Ok(row)) => {
                self.count = self.count + 1;
                self.taken = Ghost(self.taken@.push(row_view(row)));
                self.at_end = false;
                Some(Ok(row))
            },
            Some(Err(e)) => Some(Err(StoreError::Table(e))),
            None => {
                self.at_end = true;
                None
            },
        }
    }

    fn restart(&mut self) -> (r: Result<(), StoreError>) {
        match table_iter(self.table, &self.rd) {
            Ok(iter) => {
                self.iter = iter;
                self.count = 0;
                self.taken = Ghost(Seq::empty());
                self.at_end = false;
                Ok(())
            },
            Err(e) => Err(StoreError::Table(e)),
        }
    }
}

} // verus!
