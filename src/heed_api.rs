//! The parts of heed (LMDB) that the library calls, each with what it relies on.
use vstd::prelude::*;
use vstd::string::StringSliceAdditionalSpecFns;

verus! {

#[verifier::external_type_specification]
#[verifier::external_body]
pub struct ExEnv(heed::Env);

#[verifier::external_type_specification]
#[verifier::external_body]
pub struct ExRoTxn<'e>(heed::RoTxn<'e>);

#[verifier::external_type_specification]
#[verifier::external_body]
pub struct ExRwTxn<'p>(heed::RwTxn<'p>);

#[verifier::external_type_specification]
#[verifier::external_body]
pub struct ExHeedError(heed::Error);

#[verifier::external_type_specification]
#[verifier::external_body]
pub struct ExBytes(heed::types::Bytes);

#[verifier::external_type_specification]
#[verifier::external_body]
pub struct ExDefaultComparator(heed::DefaultComparator);

#[verifier::external_type_specification]
#[verifier::external_body]
pub struct ExMoveThroughDuplicateValues(heed::iteration_method::MoveThroughDuplicateValues);

#[verifier::external_type_specification]
#[verifier::external_body]
#[verifier::reject_recursive_types(KC)]
#[verifier::reject_recursive_types(DC)]
#[verifier::reject_recursive_types(C)]
pub struct ExDatabase<KC, DC, C>(heed::Database<KC, DC, C>);

#[verifier::external_type_specification]
#[verifier::external_body]
#[verifier::reject_recursive_types(KC)]
#[verifier::reject_recursive_types(DC)]
#[verifier::reject_recursive_types(IM)]
pub struct ExRoIter<'txn, KC, DC, IM>(heed::RoIter<'txn, KC, DC, IM>);

/// A table whose keys and values are raw bytes.
pub type Table = heed::Database<heed::types::Bytes, heed::types::Bytes>;

/// The forward iterator of a table under one transaction.
pub type TableIter<'t> = heed::RoIter<'t, heed::types::Bytes, heed::types::Bytes>;

/// The rows (key and value pairs) that the read transaction `txn` sees in
/// the table `t`.
pub uninterp spec fn rows_seen(txn: heed::RoTxn<'static>, t: Table) -> Set<(Seq<u8>, Seq<u8>)>;

/// The rows that the write transaction `txn` sees in the table `t`, its own
/// writes included.
pub uninterp spec fn rows_written(txn: heed::RwTxn<'static>, t: Table) -> Set<(Seq<u8>, Seq<u8>)>;

/// The forward iterator of a table, with the transaction and table it reads.
pub struct TableRows<'t> {
    pub(crate) iter: TableIter<'t>,
    pub(crate) txn: &'t heed::RoTxn<'static>,
    pub(crate) db: Table,
}

impl<'t> TableRows<'t> {
    /// The rows the iterator walks through.
    pub closed spec fn rows(&self) -> Set<(Seq<u8>, Seq<u8>)> {
        rows_seen(*self.txn, self.db)
    }
}

/// Some row of `rows` has the key `key`.
pub open spec fn has_key(rows: Set<(Seq<u8>, Seq<u8>)>, key: Seq<u8>) -> bool {
    exists|p: (Seq<u8>, Seq<u8>)| p.0 == key && #[trigger] rows.contains(p)
}

/// A read snapshot, with the environment it was opened in.
pub struct ReadTxn {
    pub(crate) env: &'static heed::Env,
    pub(crate) txn: heed::RoTxn<'static>,
}

/// The write transaction, with the environment it was opened in.
pub struct WriteTxn {
    pub(crate) env: &'static heed::Env,
    pub(crate) txn: heed::RwTxn<'static>,
}

/// Read access to an open transaction of either kind.
pub struct Reader<'a> {
    pub(crate) env: &'static heed::Env,
    pub(crate) txn: &'a heed::RoTxn<'static>,
}

/// A table, with the environment it was opened in.
pub struct StoreTable {
    pub(crate) env: &'static heed::Env,
    pub(crate) db: Table,
}

impl ReadTxn {
    pub closed spec fn env(&self) -> &'static heed::Env {
        self.env
    }

    /// The rows the snapshot sees in `t`.
    pub closed spec fn rows(&self, t: StoreTable) -> Set<(Seq<u8>, Seq<u8>)> {
        rows_seen(self.txn, t.db)
    }

    pub fn reader(&self) -> (r: Reader<'_>)
        ensures
            r.env() == self.env(),
            forall|t: StoreTable| r.rows(t) == self.rows(t),
    {
        Reader { env: self.env, txn: &self.txn }
    }
}

impl WriteTxn {
    pub closed spec fn env(&self) -> &'static heed::Env {
        self.env
    }

    /// The rows the transaction sees in `t`, its own writes included.
    pub closed spec fn rows(&self, t: StoreTable) -> Set<(Seq<u8>, Seq<u8>)> {
        rows_written(self.txn, t.db)
    }

    /// Reads as a read transaction that sees the writes made so far.
    pub fn reader(&self) -> (r: Reader<'_>)
        ensures
            r.env() == self.env(),
            forall|t: StoreTable| r.rows(t) == self.rows(t),
    {
        Reader { env: self.env, txn: write_as_read(&self.txn) }
    }
}

impl<'a> Reader<'a> {
    pub closed spec fn env(&self) -> &'static heed::Env {
        self.env
    }

    /// The rows the transaction read through sees in `t`.
    pub closed spec fn rows(&self, t: StoreTable) -> Set<(Seq<u8>, Seq<u8>)> {
        rows_seen(*self.txn, t.db)
    }
}

impl StoreTable {
    pub closed spec fn env(&self) -> &'static heed::Env {
        self.env
    }
}

/// No byte of `b` is NUL.
pub open spec fn nul_free(b: Seq<u8>) -> bool {
    forall|i: int| 0 <= i < b.len() ==> b[i] != 0
}

/// Relies on `heed::Env::read_txn`: opens a read snapshot of `env` or
/// reports why not.
#[verifier::external_body]
pub(crate) fn open_read(env: &'static heed::Env) -> (r: Result<ReadTxn, heed::Error>)
    ensures
        r is Ok ==> r->Ok_0.env() == env,
{
    match env.read_txn() {
        Ok(txn) => Ok(ReadTxn { env, txn }),
        Err(e) => Err(e),
    }
}

/// Relies on `heed::Env::write_txn`: opens the write transaction of `env` or
/// reports why not. LMDB makes it wait while another write transaction of
/// `env` is open; the transaction manager opens one only where it holds none.
#[verifier::external_body]
pub(crate) fn open_write(env: &'static heed::Env) -> (r: Result<WriteTxn, heed::Error>)
    ensures
        r is Ok ==> r->Ok_0.env() == env,
{
    match env.write_txn() {
        Ok(txn) => Ok(WriteTxn { env, txn }),
        Err(e) => Err(e),
    }
}

/// Relies on `heed::RwTxn::commit`: makes the writes durable, or reports the
/// failure; the transaction is gone either way.
#[verifier::external_body]
pub(crate) fn commit_write(w: WriteTxn) -> (r: Result<(), heed::Error>) {
    w.txn.commit()
}

/// Relies on `heed::RwTxn::abort`: drops every write of the transaction.
#[verifier::external_body]
pub(crate) fn abort_write(w: WriteTxn) {
    w.txn.abort()
}

/// Relies on `Deref for heed::RwTxn`: a write transaction reads as a read
/// transaction that sees its own writes.
#[verifier::external_body]
fn write_as_read<'a>(w: &'a heed::RwTxn<'static>) -> (r: &'a heed::RoTxn<'static>)
    ensures
        forall|t: Table| #[trigger] rows_seen(*r, t) == rows_written(*w, t),
{
    w
}

/// Relies on `heed::Env::open_database`: the named table (the unnamed one for
/// `None`), `None` where it does not exist; it never creates one. A name is
/// turned into a C string, which cannot hold NUL.
#[verifier::external_body]
pub(crate) fn open_table_in(rd: &Reader, name: Option<&str>) -> (r: Result<Option<StoreTable>, heed::Error>)
    requires
        name is Some ==> nul_free(name->Some_0.spec_bytes()),
    ensures
        r is Ok && r->Ok_0 is Some ==> r->Ok_0->Some_0.env() == rd.env(),
{
    match rd.env.open_database(rd.txn, name) {
        Ok(Some(db)) => Ok(Some(StoreTable { env: rd.env, db })),
        Ok(None) => Ok(None),
        Err(e) => Err(e),
    }
}

/// Relies on `heed::Env::create_database`: the named table, created within the
/// write transaction where it does not exist yet. A name cannot hold NUL.
#[verifier::external_body]
pub(crate) fn create_table_in(w: &mut WriteTxn, name: Option<&str>) -> (r: Result<StoreTable, heed::Error>)
    requires
        name is Some ==> nul_free(name->Some_0.spec_bytes()),
    ensures
        final(w).env() == old(w).env(),
        r is Ok ==> r->Ok_0.env() == old(w).env(),
{
    let env = w.env;
    match env.create_database(&mut w.txn, name) {
        Ok(db) => Ok(StoreTable { env, db }),
        Err(e) => Err(e),
    }
}

/// Relies on `heed::Database::put`: stores `data` under `key`, replacing what
/// was there (adding to it in a table of duplicate keys); rows of other keys
/// stay. Table and transaction must belong to one environment.
#[verifier::external_body]
pub(crate) fn put_bytes(t: &StoreTable, w: &mut WriteTxn, key: &[u8], data: &[u8]) -> (r: Result<(), heed::Error>)
    requires
        t.env() == old(w).env(),
    ensures
        final(w).env() == old(w).env(),
        r is Ok ==> final(w).rows(*t).contains((key@, data@)),
        r is Ok ==> forall|p: (Seq<u8>, Seq<u8>)|
            p.0 != key@ ==> (#[trigger] final(w).rows(*t).contains(p) == old(w).rows(*t).contains(p)),
{
    t.db.put(&mut w.txn, key, data)
}

/// Relies on `heed::Database::delete`: removes every row of `key`; `Ok(false)`
/// where it had none; rows of other keys stay. Table and transaction must
/// belong to one environment.
#[verifier::external_body]
pub(crate) fn delete_bytes(t: &StoreTable, w: &mut WriteTxn, key: &[u8]) -> (r: Result<bool, heed::Error>)
    requires
        t.env() == old(w).env(),
    ensures
        final(w).env() == old(w).env(),
        r is Ok ==> r->Ok_0 == has_key(old(w).rows(*t), key@),
        r is Ok ==> forall|p: (Seq<u8>, Seq<u8>)|
            #[trigger] final(w).rows(*t).contains(p) ==> p.0 != key@,
        r is Ok ==> forall|p: (Seq<u8>, Seq<u8>)|
            p.0 != key@ ==> (#[trigger] final(w).rows(*t).contains(p) == old(w).rows(*t).contains(p)),
{
    t.db.delete(&mut w.txn, key)
}

/// Relies on `heed::Database::len`: the number of rows the transaction sees.
/// Table and transaction must belong to one environment.
#[verifier::external_body]
pub(crate) fn table_len(t: &StoreTable, rd: &Reader) -> (r: Result<u64, heed::Error>)
    requires
        t.env() == rd.env(),
    ensures
        r is Ok ==> r->Ok_0 == rd.rows(*t).len(),
{
    t.db.len(rd.txn)
}

/// Relies on `heed::Database::iter`: a cursor before the table's first row.
/// Table and transaction must belong to one environment.
#[verifier::external_body]
pub(crate) fn table_iter<'t>(t: &StoreTable, rd: &Reader<'t>) -> (r: Result<TableRows<'t>, heed::Error>)
    requires
        t.env() == rd.env(),
    ensures
        r is Ok ==> r->Ok_0.rows() == rd.rows(*t),
{
    match t.db.iter(rd.txn) {
        Ok(iter) => Ok(TableRows { iter, txn: rd.txn, db: t.db }),
        Err(e) => Err(e),
    }
}

/// Relies on `Iterator for heed::RoIter`: the next row, copied out of the
/// map, in the order of the table's comparator; `None` past the last row.
/// Each row is one that the transaction sees in the table.
#[verifier::external_body]
pub(crate) fn iter_next<'t>(it: &mut TableRows<'t>) -> (r: Option<Result<(Vec<u8>, Vec<u8>), heed::Error>>)
    ensures
        final(it).rows() == old(it).rows(),
        r is Some && r->Some_0 is Ok ==> old(it).rows().contains((r->Some_0->Ok_0.0@, r->Some_0->Ok_0.1@)),
{
    match it.iter.next() {
        Some(Ok((k, v))) => Some(Ok((k.to_vec(), v.to_vec()))),
        Some(Err(e)) => Some(Err(e)),
        None => None,
    }
}

} // verus!
