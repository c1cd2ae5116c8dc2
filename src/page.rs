//! A window of rows of an ordered table, read through a forward cursor that
//! is kept between requests so that paging forward never reads a row twice.
use vstd::prelude::*;

use crate::txn::StoreError;

verus! {

/// A row as stored: key bytes and value bytes.
pub type RowView = (Seq<u8>, Seq<u8>);

pub open spec fn row_view(r: (Vec<u8>, Vec<u8>)) -> RowView {
    (r.0@, r.1@)
}

/// Rows `start .. start + len` of `rows`, cut short at its end.
pub open spec fn window_of(rows: Seq<RowView>, start: int, len: int) -> Seq<RowView> {
    if start >= rows.len() {
        Seq::empty()
    } else if start + len <= rows.len() {
        rows.subrange(start, start + len)
    } else {
        rows.subrange(start, rows.len() as int)
    }
}

/// `a` is at most `b` byte by byte, a key before every longer key that it
/// starts.
pub open spec fn key_le(a: Seq<u8>, b: Seq<u8>) -> bool
    decreases a.len(),
{
    if a.len() == 0 {
        true
    } else if b.len() == 0 {
        false
    } else if a[0] != b[0] {
        a[0] < b[0]
    } else {
        key_le(a.drop_first(), b.drop_first())
    }
}

/// Each key of `rows` is at least the one before it.
pub open spec fn keys_ordered(rows: Seq<RowView>) -> bool {
    forall|i: int| 0 < i < rows.len() ==> #[trigger] key_le(rows[i - 1].0, rows[i].0)
}

/// A forward cursor over a table's rows in key order.
pub trait RowCursor {
    /// The rows handed out since the cursor was last (re)started, in order:
    /// the row at ordinal `i` of the table is `taken()[i]`.
    spec fn taken(&self) -> Seq<RowView>;

    /// The cursor has reported that no row follows.
    spec fn ended(&self) -> bool;

    /// The cursor's own bookkeeping is consistent.
    spec fn wf(&self) -> bool;

    /// Whether the rows the cursor walks are known: then they are `source()`,
    /// in order, and reading them never fails.
    spec fn exact(&self) -> bool;

    /// The rows the cursor walks, where `exact()`.
    spec fn source(&self) -> Seq<RowView>;

    /// How many times `next_row` was called.
    spec fn steps(&self) -> nat;

    /// Every row the cursor can hand out is in `pool()`: the rows of the
    /// table as its transaction sees them.
    spec fn pool(&self) -> Set<RowView>;

    /// The cursor hands out rows in byte-wise key order.
    spec fn keeps_key_order(&self) -> bool;

    /// What a known cursor handed out is the start of what it walks.
    proof fn lemma_taken_from_source(&self)
        requires
            self.wf(),
        ensures
            self.exact() ==> self.taken().len() <= self.source().len()
                && self.taken() == self.source().take(self.taken().len() as int),
    ;

    /// How many rows were handed out since the cursor started.
    fn taken_len(&self) -> (r: usize)
        requires
            self.wf(),
        ensures
            r == self.taken().len(),
    ;

    /// The next row, `None` past the last one, or the engine's error.
    fn next_row(&mut self) -> (r: Option<Result<(Vec<u8>, Vec<u8>), StoreError>>)
        requires
            old(self).wf(),
            old(self).taken().len() < usize::MAX,
        ensures
            final(self).wf(),
            r is Some && r->Some_0 is Ok ==> final(self).taken() == old(self).taken().push(
                row_view(r->Some_0->Ok_0),
            ) && !final(self).ended(),
            !(r is Some && r->Some_0 is Ok) ==> final(self).taken() == old(self).taken(),
            r is None ==> final(self).ended(),
            final(self).exact() == old(self).exact(),
            final(self).source() == old(self).source(),
            final(self).steps() == old(self).steps() + 1,
            final(self).pool() == old(self).pool(),
            r is Some && r->Some_0 is Ok ==> old(self).pool().contains(row_view(r->Some_0->Ok_0)),
            final(self).keeps_key_order() == old(self).keeps_key_order(),
            old(self).keeps_key_order() && keys_ordered(old(self).taken()) ==> keys_ordered(final(self).taken()),
            old(self).exact() && r is Some ==> r->Some_0 is Ok
                && old(self).taken().len() < old(self).source().len()
                && row_view(r->Some_0->Ok_0) == old(self).source()[old(self).taken().len() as int],
            old(self).exact() && r is None ==> old(self).taken().len() >= old(self).source().len(),
    ;

    /// Goes back before the first row.
    fn restart(&mut self) -> (r: Result<(), StoreError>)
        requires
            old(self).wf(),
        ensures
            final(self).wf(),
            r is Ok ==> final(self).taken() == Seq::<RowView>::empty() && !final(self).ended(),
            r is Err ==> final(self).taken() == old(self).taken(),
            final(self).exact() == old(self).exact(),
            final(self).source() == old(self).source(),
            final(self).steps() == old(self).steps(),
            final(self).pool() == old(self).pool(),
            final(self).keeps_key_order() == old(self).keeps_key_order(),
            old(self).exact() ==> r is Ok,
    ;
}

/// The cursor `now` has read on from the cursor `first` that a request
/// started with: `before` is what it held when reading began (what `first`
/// held where it was kept, nothing where it was restarted), and every row
/// since came from one `next_row` call.
pub open spec fn read_on_from<C: RowCursor>(first: C, kept: bool, before: Seq<RowView>, now: C) -> bool {
    &&& now.wf()
    &&& before.is_prefix_of(now.taken())
    &&& kept ==> before == first.taken()
    &&& !kept ==> before.len() == 0
    &&& now.exact() == first.exact()
    &&& now.source() == first.source()
    &&& now.steps() == first.steps() + (now.taken().len() - before.len())
    &&& now.exact() ==> now.taken().len() <= now.source().len() && now.taken() == now.source().take(
        now.taken().len() as int,
    )
    &&& now.keeps_key_order() == first.keeps_key_order()
    &&& now.pool() == first.pool()
    &&& first.keeps_key_order() && keys_ordered(first.taken()) ==> keys_ordered(now.taken())
}

/// Reading one more row keeps `read_on_from`.
proof fn lemma_read_one_more<C: RowCursor>(first: C, kept: bool, before: Seq<RowView>, prev: C, now: C)
    requires
        read_on_from(first, kept, before, prev),
        now.wf(),
        now.exact() == prev.exact(),
        now.source() == prev.source(),
        now.steps() == prev.steps() + 1,
        now.keeps_key_order() == prev.keeps_key_order(),
        now.pool() == prev.pool(),
        prev.keeps_key_order() && keys_ordered(prev.taken()) ==> keys_ordered(now.taken()),
        exists|row: RowView| now.taken() == prev.taken().push(row) && (prev.exact() ==> prev.taken().len() < prev.source().len()
            && row == prev.source()[prev.taken().len() as int]),
    ensures
        read_on_from(first, kept, before, now),
{
    let row = choose|row: RowView| now.taken() == prev.taken().push(row) && (prev.exact() ==> prev.taken().len()
        < prev.source().len() && row == prev.source()[prev.taken().len() as int]);
    if now.exact() {
        assert(now.taken() =~= now.source().take(now.taken().len() as int));
    }
    assert(before.is_prefix_of(now.taken()));
}

/// Serves windows `[start, start + len)` of the rows of one cursor.
pub struct PageView<C> {
    cursor: C,
    /// The cursor failed and must be restarted before it is read again.
    broken: bool,
}

impl<C: RowCursor> PageView<C> {
    pub closed spec fn cursor(&self) -> C {
        self.cursor
    }

    /// The cursor failed and must be restarted before it is read again.
    pub closed spec fn is_broken(&self) -> bool {
        self.broken
    }

    pub open spec fn wf(&self) -> bool {
        self.cursor().wf()
    }

    /// The number of rows the cursor has handed out since it started.
    pub open spec fn position(&self) -> nat {
        self.cursor().taken().len()
    }

    /// A request from `start` goes on with the cursor as it stands: it is
    /// sound and has not passed `start`.
    pub open spec fn continues_at(&self, start: nat) -> bool {
        !self.is_broken() && self.position() <= start
    }

    /// A view over a cursor that has not moved yet.
    pub fn new(cursor: C) -> (r: PageView<C>)
        requires
            cursor.wf(),
            cursor.taken().len() == 0,
        ensures
            r.wf(),
            r.cursor() == cursor,
            keys_ordered(r.cursor().taken()),
            r.continues_at(0),
    {
        PageView { cursor, broken: false }
    }

    pub fn into_cursor(self) -> (r: C)
        ensures
            r == self.cursor(),
    {
        self.cursor
    }

    /// Rows `start .. start + len` of the table, fewer where the table ends
    /// first (none where it has at most `start` rows). Where the cursor has
    /// not passed `start` it goes on from where it stands and skips the
    /// gap; otherwise it is restarted and skips `start` rows.
    pub fn window(&mut self, start: usize, len: usize) -> (r: Result<Vec<(Vec<u8>, Vec<u8>)>, StoreError>)
        requires
            old(self).wf(),
            start + len < usize::MAX,
        ensures
            final(self).wf(),
            r is Ok ==> {
                let rows = r->Ok_0;
                let t = final(self).cursor().taken();
                &&& rows.len() <= len
                &&& forall|i: int|
                    #![trigger rows[i]]
                    0 <= i < rows.len() ==> row_view(rows[i]) == t[start + i]
                &&& (t.len() == start + rows.len() || (rows.len() == 0 && t.len() < start))
                &&& rows.len() < len ==> final(self).cursor().ended()
                &&& old(self).continues_at(start as nat) ==> old(self).cursor().taken().is_prefix_of(t)
                &&& final(self).continues_at((start + rows.len()) as nat)
                &&& final(self).cursor().steps() == old(self).cursor().steps() + (t.len() - (if old(
                    self,
                ).continues_at(start as nat) {
                    old(self).cursor().taken().len()
                } else {
                    0
                })) + (if rows.len() < len || t.len() < start {
                    1nat
                } else {
                    0nat
                })
            },
            r is Err ==> final(self).is_broken(),
            final(self).cursor().pool() == old(self).cursor().pool(),
            r is Ok ==> forall|i: int|
                0 <= i < r->Ok_0.len() ==> old(self).cursor().pool().contains(#[trigger] row_view(r->Ok_0[i])),
            final(self).cursor().keeps_key_order() == old(self).cursor().keeps_key_order(),
            old(self).cursor().keeps_key_order() && keys_ordered(old(self).cursor().taken()) ==> keys_ordered(
                final(self).cursor().taken(),
            ),
            final(self).cursor().exact() == old(self).cursor().exact(),
            final(self).cursor().source() == old(self).cursor().source(),
            old(self).cursor().exact() ==> r is Ok && r->Ok_0@.map_values(|x: (Vec<u8>, Vec<u8>)| row_view(x))
                == window_of(old(self).cursor().source(), start as int, len as int),
    {
        if !(!self.broken && self.cursor.taken_len() <= start) {
            match self.cursor.restart() {
                Ok(()) => {},
                Err(e) => {
                    self.broken = true;
                    return Err(e);
                },
            }
            self.broken = false;
        }
        let ghost before = self.cursor.taken();
        let ghost src = self.cursor.source();
        proof {
            self.cursor.lemma_taken_from_source();
        }
        let mut pos: usize = self.cursor.taken_len();
        while pos < start
            invariant
                pos <= start,
                pos == self.cursor.taken().len(),
                !self.broken,
                start + len < usize::MAX,
                src == old(self).cursor().source(),
                read_on_from(old(self).cursor(), old(self).continues_at(start as nat), before, self.cursor),
            decreases start - pos,
        {
            let ghost prev = self.cursor;
            match self.cursor.next_row() {
                Some(Ok(_)) => {
                    proof {
                        lemma_read_one_more(old(self).cursor(), old(self).continues_at(start as nat), before, prev, self.cursor);
                    }
                    pos = pos + 1;
                },
                Some(Err(e)) => {
                    self.broken = true;
                    return Err(e);
                },
                None => {
                    let rows: Vec<(Vec<u8>, Vec<u8>)> = Vec::new();
                    assert(rows@.map_values(|x: (Vec<u8>, Vec<u8>)| row_view(x)) =~= Seq::<RowView>::empty());
                    return Ok(rows);
                },
            }
        }
        let mut rows: Vec<(Vec<u8>, Vec<u8>)> = Vec::new();
        while rows.len() < len
            invariant
                rows.len() <= len,
                self.cursor.taken().len() == start + rows.len(),
                !self.broken,
                start + len < usize::MAX,
                src == old(self).cursor().source(),
                read_on_from(old(self).cursor(), old(self).continues_at(start as nat), before, self.cursor),
                forall|i: int|
                    #![trigger rows@[i]]
                    0 <= i < rows.len() ==> row_view(rows@[i]) == self.cursor.taken()[start + i]
                        && old(self).cursor().pool().contains(row_view(rows@[i])),
            decreases len - rows.len(),
        {
            let ghost prev = self.cursor;
            match self.cursor.next_row() {
                Some(Ok(row)) => {
                    proof {
                        lemma_read_one_more(old(self).cursor(), old(self).continues_at(start as nat), before, prev, self.cursor);
                    }
                    rows.push(row);
                },
                Some(Err(e)) => {
                    self.broken = true;
                    return Err(e);
                },
                None => {
                    proof {
                        if self.cursor.exact() {
                            assert(rows@.map_values(|x: (Vec<u8>, Vec<u8>)| row_view(x)) =~= window_of(
                                src,
                                start as int,
                                len as int,
                            ));
                        }
                    }
                    return Ok(rows);
                },
            }
        }
        proof {
            if self.cursor.exact() {
                assert(rows@.map_values(|x: (Vec<u8>, Vec<u8>)| row_view(x)) =~= window_of(
                    src,
                    start as int,
                    len as int,
                ));
            }
        }
        Ok(rows)
    }
}

/// A cursor over rows held in memory, in the order given. It counts the
/// calls made to it, so that a caller can see how much was read.
pub struct MemCursor {
    rows: Vec<(Vec<u8>, Vec<u8>)>,
    pos: usize,
    at_end: bool,
    calls: u64,
    steps: Ghost<nat>,
}

fn copy_row(r: &(Vec<u8>, Vec<u8>)) -> (c: (Vec<u8>, Vec<u8>))
    ensures
        row_view(c) == row_view(*r),
{
    (r.0.clone(), r.1.clone())
}

impl MemCursor {
    /// A cursor that will hand out `rows` in turn.
    pub fn new(rows: Vec<(Vec<u8>, Vec<u8>)>) -> (r: MemCursor)
        ensures
            r.source() == rows@.map_values(|x: (Vec<u8>, Vec<u8>)| row_view(x)),
            r.exact(),
            r.wf(),
            r.taken().len() == 0,
            r.steps() == 0,
            r.keeps_key_order() == keys_ordered(r.source()),
            r.pool() == r.source().to_set(),
            !r.ended(),
    {
        MemCursor { rows, pos: 0, at_end: false, calls: 0, steps: Ghost(0) }
    }

    /// How many times `next_row` was called, stopping at `u64::MAX`.
    pub fn calls(&self) -> (r: u64)
        requires
            self.wf(),
        ensures
            self.steps() < u64::MAX ==> r == self.steps(),
    {
        self.calls
    }
}

impl RowCursor for MemCursor {
    closed spec fn taken(&self) -> Seq<RowView> {
        self.source().take(self.pos as int)
    }

    closed spec fn ended(&self) -> bool {
        self.at_end
    }

    closed spec fn wf(&self) -> bool {
        &&& self.pos <= self.rows.len()
        &&& (self.steps@ < u64::MAX ==> self.calls == self.steps@)
        &&& (self.steps@ >= u64::MAX ==> self.calls == u64::MAX)
    }

    closed spec fn exact(&self) -> bool {
        true
    }

    closed spec fn source(&self) -> Seq<RowView> {
        self.rows@.map_values(|r: (Vec<u8>, Vec<u8>)| row_view(r))
    }

    closed spec fn steps(&self) -> nat {
        self.steps@
    }

    closed spec fn keeps_key_order(&self) -> bool {
        keys_ordered(self.source())
    }

    closed spec fn pool(&self) -> Set<RowView> {
        self.source().to_set()
    }

    proof fn lemma_taken_from_source(&self) {
    }

    fn taken_len(&self) -> (r: usize) {
        self.pos
    }

    fn next_row(&mut self) -> (r: Option<Result<(Vec<u8>, Vec<u8>), StoreError>>) {
        if self.calls < u64::MAX {
            self.calls = self.calls + 1;
        }
        self.steps = Ghost(self.steps@ + 1);
        if self.pos < self.rows.len() {
            let row = copy_row(&self.rows[self.pos]);
            assert(self.source()[self.pos as int] == row_view(row));
            assert(self.source().contains(row_view(row)));
            self.pos = self.pos + 1;
            self.at_end = false;
            assert(self.taken() =~= old(self).taken().push(row_view(row)));
            assert(self.taken() =~= self.source().take(self.pos as int));
            Some(Ok(row))
        } else {
            self.at_end = true;
            None
        }
    }

    fn restart(&mut self) -> (r: Result<(), StoreError>) {
        self.pos = 0;
        self.at_end = false;
        assert(self.taken() =~= Seq::<RowView>::empty());
        Ok(())
    }
}

} // verus!
