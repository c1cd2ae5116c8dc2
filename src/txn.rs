//! The transaction open on the store. At most one handle exists at a time:
//! every transition closes the old handle before the engine is asked for the
//! next one, and a step that the engine refuses leaves a defined state.
use vstd::prelude::*;
use vstd::string::StringSliceAdditionalSpecFns;

use crate::heed_api::{
    abort_write, commit_write, has_key, open_read, open_write, put_bytes, delete_bytes, ReadTxn, Reader,
    StoreTable, WriteTxn,
};

verus! {

/// Which kind of transaction is open.
#[derive(Debug, Clone, Copy, PartialEq, Eq, Structural)]
pub enum TxnMode {
    ReadOnly,
    ReadWrite,
    /// None: the engine refused to open one. `refresh` tries again.
    Closed,
}

/// Why the engine refused a step.
#[derive(Debug)]
pub enum StoreError {
    /// No read snapshot could be opened.
    BeginRead(heed::Error),
    /// No write transaction could be opened (a full map, ...).
    BeginWrite(heed::Error),
    /// Committing failed; the writes of the transaction are lost.
    Commit(heed::Error),
    /// A table operation (open, put, delete, read) failed.
    Table(heed::Error),
    /// No transaction is open after an earlier refusal.
    NoTransaction,
}

enum TxnState {
    Ro(ReadTxn),
    Rw(WriteTxn),
    Closed,
}

/// The open transaction of one environment: a read snapshot, the single
/// write transaction, or none after the engine refused to open one.
pub struct Txn {
    env: &'static heed::Env,
    state: TxnState,
}

/// What a commit reports: the engine's refusal to commit first, else the
/// outcome of opening the next snapshot.
pub fn commit_outcome(committed: Result<(), heed::Error>, reopened: Result<(), StoreError>) -> (r: Result<(), StoreError>)
    ensures
        committed is Err ==> r is Err && r->Err_0 is Commit && r->Err_0->Commit_0 == committed->Err_0,
        committed is Ok ==> r == reopened,
{
    match committed {
        Err(e) => Err(StoreError::Commit(e)),
        Ok(()) => reopened,
    }
}

/// Ends the value given to it: a transaction handed here is closed on return.
fn release<T>(_v: T) {
}

impl Txn {
    /// The environment the transaction belongs to.
    pub closed spec fn env(&self) -> &'static heed::Env {
        self.env
    }

    pub closed spec fn mode(&self) -> TxnMode {
        match self.state {
            TxnState::Ro(_) => TxnMode::ReadOnly,
            TxnState::Rw(_) => TxnMode::ReadWrite,
            TxnState::Closed => TxnMode::Closed,
        }
    }

    /// The rows the open transaction sees in `t` (none where it is closed).
    pub closed spec fn rows(&self, t: StoreTable) -> Set<(Seq<u8>, Seq<u8>)> {
        match self.state {
            TxnState::Ro(r) => r.rows(t),
            TxnState::Rw(w) => w.rows(t),
            TxnState::Closed => Set::empty(),
        }
    }

    /// The handle held belongs to `env()`.
    pub closed spec fn wf(&self) -> bool {
        match self.state {
            TxnState::Ro(r) => r.env() == self.env,
            TxnState::Rw(w) => w.env() == self.env,
            TxnState::Closed => true,
        }
    }

    /// Opens the first read snapshot of `env`.
    pub fn begin(env: &'static heed::Env) -> (r: Result<Txn, StoreError>)
        ensures
            r is Ok ==> r->Ok_0.wf() && r->Ok_0.env() == env && r->Ok_0.mode() == TxnMode::ReadOnly,
            r is Err ==> r->Err_0 is BeginRead,
    {
        match open_read(env) {
            Ok(t) => Ok(Txn { env, state: TxnState::Ro(t) }),
            Err(e) => Err(StoreError::BeginRead(e)),
        }
    }

    pub fn is_writing(&self) -> (r: bool)
        ensures
            r == (self.mode() == TxnMode::ReadWrite),
    {
        match self.state {
            TxnState::Rw(_) => true,
            _ => false,
        }
    }

    /// Read access to the open transaction; in write mode it sees its own
    /// writes. `None` where no transaction is open.
    pub fn reader(&self) -> (r: Option<Reader<'_>>)
        requires
            self.wf(),
        ensures
            r is Some <==> self.mode() != TxnMode::Closed,
            r is Some ==> r->Some_0.env() == self.env(),
            r is Some ==> forall|t: StoreTable| r->Some_0.rows(t) == self.rows(t),
    {
        match &self.state {
            TxnState::Ro(t) => Some(t.reader()),
            TxnState::Rw(w) => Some(w.reader()),
            TxnState::Closed => None,
        }
    }

    /// Closes the handle held, leaving no transaction open.
    fn close(&mut self)
        ensures
            final(self).env() == old(self).env(),
            final(self).mode() == TxnMode::Closed,
            final(self).wf(),
    {
        let mut old_state = TxnState::Closed;
        core::mem::swap(&mut self.state, &mut old_state);
        release(old_state);
    }

    /// Opens a read snapshot where none is open.
    fn open_snapshot(&mut self) -> (r: Result<(), StoreError>)
        requires
            old(self).mode() == TxnMode::Closed,
        ensures
            final(self).env() == old(self).env(),
            final(self).wf(),
            r is Ok <==> final(self).mode() == TxnMode::ReadOnly,
            r is Err ==> final(self).mode() == TxnMode::Closed && r->Err_0 is BeginRead,
    {
        match open_read(self.env) {
            Ok(t) => {
                self.state = TxnState::Ro(t);
                Ok(())
            },
            Err(e) => Err(StoreError::BeginRead(e)),
        }
    }

    /// Closes the read snapshot, then opens the write transaction. Where the
    /// engine refuses, a fresh read snapshot is opened in its place and the
    /// refusal is reported. In write mode nothing happens.
    pub fn begin_write(&mut self) -> (r: Result<(), StoreError>)
        requires
            old(self).wf(),
        ensures
            final(self).wf(),
            final(self).env() == old(self).env(),
            old(self).mode() == TxnMode::ReadWrite ==> *final(self) == *old(self) && r is Ok,
            old(self).mode() != TxnMode::ReadWrite ==> (r is Ok <==> final(self).mode() == TxnMode::ReadWrite),
            old(self).mode() != TxnMode::ReadWrite && r is Err ==> r->Err_0 is BeginWrite
                && final(self).mode() != TxnMode::ReadWrite,
    {
        if self.is_writing() {
            return Ok(());
        }
        self.close();
        match open_write(self.env) {
            Ok(w) => {
                self.state = TxnState::Rw(w);
                Ok(())
            },
            Err(e) => {
                let _ = self.open_snapshot();
                Err(StoreError::BeginWrite(e))
            },
        }
    }

    /// Commits the write transaction, then opens a new snapshot, which sees
    /// the writes. Where the commit fails the writes are lost and the error
    /// is reported; a snapshot is opened all the same. In any other mode
    /// nothing happens.
    pub fn commit(&mut self) -> (r: Result<(), StoreError>)
        requires
            old(self).wf(),
        ensures
            final(self).wf(),
            final(self).env() == old(self).env(),
            old(self).mode() != TxnMode::ReadWrite ==> *final(self) == *old(self) && r is Ok,
            old(self).mode() == TxnMode::ReadWrite ==> final(self).mode() == TxnMode::ReadOnly
                || (final(self).mode() == TxnMode::Closed && r is Err),
            old(self).mode() == TxnMode::ReadWrite && r is Ok ==> final(self).mode() == TxnMode::ReadOnly,
            r is Err ==> r->Err_0 is Commit || r->Err_0 is BeginRead,
    {
        if !self.is_writing() {
            return Ok(());
        }
        let mut old_state = TxnState::Closed;
        core::mem::swap(&mut self.state, &mut old_state);
        let committed = match old_state {
            TxnState::Rw(w) => commit_write(w),
            other => {
                release(other);
                Ok(())
            },
        };
        let reopened = self.open_snapshot();
        commit_outcome(committed, reopened)
    }

    /// Drops every write of the write transaction, then opens a new snapshot.
    /// In any other mode nothing happens.
    pub fn abort(&mut self) -> (r: Result<(), StoreError>)
        requires
            old(self).wf(),
        ensures
            final(self).wf(),
            final(self).env() == old(self).env(),
            old(self).mode() != TxnMode::ReadWrite ==> *final(self) == *old(self) && r is Ok,
            old(self).mode() == TxnMode::ReadWrite ==> (r is Ok <==> final(self).mode() == TxnMode::ReadOnly),
            old(self).mode() == TxnMode::ReadWrite && r is Err ==> final(self).mode() == TxnMode::Closed,
            r is Err ==> r->Err_0 is BeginRead,
    {
        if !self.is_writing() {
            return Ok(());
        }
        let mut old_state = TxnState::Closed;
        core::mem::swap(&mut self.state, &mut old_state);
        match old_state {
            TxnState::Rw(w) => abort_write(w),
            other => release(other),
        }
        self.open_snapshot()
    }

    /// Closes the read snapshot (if any) and opens a fresh one, which sees
    /// what was committed since. The write transaction is left as it is.
    pub fn refresh(&mut self) -> (r: Result<(), StoreError>)
        requires
            old(self).wf(),
        ensures
            final(self).wf(),
            final(self).env() == old(self).env(),
            old(self).mode() == TxnMode::ReadWrite ==> *final(self) == *old(self) && r is Ok,
            old(self).mode() != TxnMode::ReadWrite ==> (r is Ok <==> final(self).mode() == TxnMode::ReadOnly),
            old(self).mode() != TxnMode::ReadWrite && r is Err ==> final(self).mode() == TxnMode::Closed,
            r is Err ==> r->Err_0 is BeginRead,
    {
        if self.is_writing() {
            return Ok(());
        }
        self.close();
        self.open_snapshot()
    }

    /// Stores `data` under `key` in the write transaction.
    pub fn put(&mut self, table: &StoreTable, key: &[u8], data: &[u8]) -> (r: Result<(), StoreError>)
        requires
            old(self).wf(),
            old(self).mode() == TxnMode::ReadWrite,
            table.env() == old(self).env(),
        ensures
            final(self).wf(),
            final(self).env() == old(self).env(),
            final(self).mode() == TxnMode::ReadWrite,
            r is Err ==> r->Err_0 is Table,
            r is Ok ==> final(self).rows(*table).contains((key@, data@)),
            r is Ok ==> forall|p: (Seq<u8>, Seq<u8>)|
                p.0 != key@ ==> (#[trigger] final(self).rows(*table).contains(p) == old(self).rows(*table).contains(p)),
    {
        match &mut self.state {
            TxnState::Rw(w) => match put_bytes(table, w, key, data) {
                Ok(()) => Ok(()),
                Err(e) => Err(StoreError::Table(e)),
            },
            _ => Ok(()),
        }
    }

    /// Removes `key` in the write transaction; `Ok(false)` where it was absent.
    pub fn delete(&mut self, table: &StoreTable, key: &[u8]) -> (r: Result<bool, StoreError>)
        requires
            old(self).wf(),
            old(self).mode() == TxnMode::ReadWrite,
            table.env() == old(self).env(),
        ensures
            final(self).wf(),
            final(self).env() == old(self).env(),
            final(self).mode() == TxnMode::ReadWrite,
            r is Err ==> r->Err_0 is Table,
            r is Ok ==> r->Ok_0 == has_key(old(self).rows(*table), key@),
            r is Ok ==> forall|p: (Seq<u8>, Seq<u8>)| #[trigger] final(self).rows(*table).contains(p) ==> p.0 != key@,
            r is Ok ==> forall|p: (Seq<u8>, Seq<u8>)|
                p.0 != key@ ==> (#[trigger] final(self).rows(*table).contains(p) == old(self).rows(*table).contains(p)),
    {
        match &mut self.state {
            TxnState::Rw(w) => match delete_bytes(table, w, key) {
                Ok(found) => Ok(found),
                Err(e) => Err(StoreError::Table(e)),
            },
            _ => Ok(false),
        }
    }

    /// Creates the named table (the main table for `None`) where it does not
    /// exist yet, in the write transaction.
    pub fn create_table(&mut self, name: Option<&str>) -> (r: Result<StoreTable, StoreError>)
        requires
            old(self).wf(),
            old(self).mode() == TxnMode::ReadWrite,
            name is Some ==> crate::heed_api::nul_free(name->Some_0.spec_bytes()),
        ensures
            final(self).wf(),
            final(self).env() == old(self).env(),
            final(self).mode() == TxnMode::ReadWrite,
            r is Ok ==> r->Ok_0.env() == old(self).env(),
            r is Err ==> r->Err_0 is Table,
    {
        match &mut self.state {
            TxnState::Rw(w) => match crate::heed_api::create_table_in(w, name) {
                Ok(t) => Ok(t),
                Err(e) => Err(StoreError::Table(e)),
            },
            _ => Err(StoreError::NoTransaction),
        }
    }
}

} // verus!
