//! The quotes resource family: a book name and a quote from it.

use vstd::prelude::*;
use crate::clock::now_timestamp;
use crate::store::{contains_id, index_of_id, status_of_match, Row, Status, Table};

verus! {

/// The user-supplied fields of one quote.
pub struct Create {
    pub book: String,
    pub quote: String,
}

impl Create {
    /// An exact copy, so that the stored row and the echoed record can
    /// both carry the fields.
    pub fn duplicate(&self) -> (r: Self)
        ensures
            r == *self,
    {
        Create { book: self.book.clone(), quote: self.quote.clone() }
    }
}

/// A stored quote: the user-supplied fields plus the two server-set
/// timestamps, as the create route echoes it (without the id).
pub struct Quote {
    pub book: String,
    pub quote: String,
    pub created_at: i64,
    pub updated_at: i64,
}

impl Quote {
    /// The record stored at instant `now`: both timestamps are the
    /// creation instant.
    pub fn new(book: String, quote: String, now: i64) -> (r: Self)
        ensures
            r.book == book,
            r.quote == quote,
            r.created_at == now,
            r.updated_at == now,
    {
        Quote { book, quote, created_at: now, updated_at: now }
    }
}

/// The read projection of one stored quote: its fields plus the
/// store-generated id.
pub struct ReadQuote {
    pub id: i32,
    pub book: String,
    pub quote: String,
    pub created_at: i64,
    pub updated_at: i64,
}

impl ReadQuote {
    /// A projection assembled field by field.
    pub fn new(id: i32, book: String, quote: String, created_at: i64, updated_at: i64) -> (r: Self)
        ensures
            r.id == id,
            r.book == book,
            r.quote == quote,
            r.created_at == created_at,
            r.updated_at == updated_at,
    {
        ReadQuote { id, book, quote, created_at, updated_at }
    }
}

/// The projection of one stored row, id included.
pub open spec fn projection_of(row: Row<Create>) -> ReadQuote {
    ReadQuote {
        id: row.id,
        book: row.payload.book,
        quote: row.payload.quote,
        created_at: row.created_at,
        updated_at: row.updated_at,
    }
}

/// The projections of all rows of `s`, in storage order.
pub open spec fn projections_of(s: Seq<Row<Create>>) -> Seq<ReadQuote>
    decreases s.len(),
{
    if s.len() == 0 {
        Seq::empty()
    } else {
        projections_of(s.drop_last()).push(projection_of(s.last()))
    }
}

/// Reading projects row by row: the projections sequence has one element
/// per stored row, each the projection of the row at the same position.
pub proof fn lemma_projections_of(s: Seq<Row<Create>>)
    ensures
        projections_of(s).len() == s.len(),
        forall|i: int| 0 <= i < s.len() ==> projections_of(s)[i] == projection_of(#[trigger] s[i]),
    decreases s.len(),
{
    if s.len() > 0 {
        lemma_projections_of(s.drop_last());
        assert forall|i: int|
            0 <= i < s.len() implies projections_of(s)[i] == projection_of(#[trigger] s[i]) by {
            if i < s.len() - 1 {
                assert(s.drop_last()[i] == s[i]);
                assert(projections_of(s)[i] == projections_of(s.drop_last())[i]);
            } else {
                assert(projections_of(s)[i] == projection_of(s.last()));
            }
        }
    }
}

/// Inserts a new quote as of the instant `now`: the stored row carries the
/// payload, the next free id, and both timestamps set to `now`.  The
/// stored record is echoed back, without its id.
pub fn create_at(t: &mut Table<Create>, payload: Create, now: i64) -> (r: Quote)
    requires
        old(t).wf(),
        old(t).can_insert(),
    ensures
        final(t).wf(),
        final(t).next_id_spec() == old(t).next_id_spec() + 1,
        final(t)@ == old(t)@.push(
            Row { id: old(t).next_id_spec(), payload, created_at: now, updated_at: now },
        ),
        r.book == payload.book,
        r.quote == payload.quote,
        r.created_at == now,
        r.updated_at == now,
    {
        let copy = payload.duplicate();
        t.insert(payload, now);
        Quote::new(copy.book, copy.quote, now)
    }

/// Inserts a new quote with server-set timestamps, both the sampled
/// current instant, and echoes the stored record, as the create route
/// responds.
pub fn create(t: &mut Table<Create>, payload: Create) -> (r: Quote)
    requires
        old(t).wf(),
        old(t).can_insert(),
    ensures
        final(t).wf(),
        final(t).next_id_spec() == old(t).next_id_spec() + 1,
        final(t)@ == old(t)@.push(
            Row {
                id: old(t).next_id_spec(),
                payload,
                created_at: r.created_at,
                updated_at: r.created_at,
            },
        ),
        r.book == payload.book,
        r.quote == payload.quote,
        r.created_at == r.updated_at,
    {
        let now = now_timestamp();
        create_at(t, payload, now)
    }

/// Every stored quote as its read projection, id included, in storage
/// order; an empty table yields an empty vector.
pub fn read(t: &Table<Create>) -> (r: Vec<ReadQuote>)
    ensures
        r@ == projections_of(t@),
    {
        let rows = t.read_all();
        let mut out: Vec<ReadQuote> = Vec::new();
        let mut i: usize = 0;
        while i < rows.len()
            invariant
                i <= t@.len(),
                rows@ == t@,
                out@ =~= projections_of(t@.subrange(0, i as int)),
            decreases t@.len() - i,
        {
            let ghost pre = t@.subrange(0, i as int);
            let ghost cur = t@.subrange(0, i as int + 1);
            proof {
                assert(cur.drop_last() =~= pre);
                assert(cur.last() == t@[i as int]);
            }
            let row = &rows[i];
            out.push(
                ReadQuote::new(
                    row.id,
                    row.payload.book.clone(),
                    row.payload.quote.clone(),
                    row.created_at,
                    row.updated_at,
                ),
            );
            proof {
                assert(out@ =~= projections_of(cur));
            }
            i = i + 1;
        }
        proof {
            assert(t@.subrange(0, i as int) =~= t@);
        }
        out
    }

/// Overwrites the user-supplied fields of the quote carrying `id` and
/// refreshes its `updated_at` to the instant `now`; its id and
/// `created_at` are kept.  Reports not-found, and changes nothing, exactly
/// when no row carries `id`.
pub fn update_at(t: &mut Table<Create>, id: i32, payload: Create, now: i64) -> (st: Status)
    requires
        old(t).wf(),
    ensures
        final(t).wf(),
        final(t).next_id_spec() == old(t).next_id_spec(),
        st == status_of_match(contains_id(old(t)@, id)),
        contains_id(old(t)@, id) ==> final(t)@ == old(t)@.update(
            index_of_id(old(t)@, id),
            Row {
                id,
                payload,
                created_at: old(t)@[index_of_id(old(t)@, id)].created_at,
                updated_at: now,
            },
        ),
        !contains_id(old(t)@, id) ==> final(t)@ == old(t)@,
    {
        t.update(id, payload, now)
    }

/// Overwrites the user-supplied fields of the quote carrying `id` and
/// refreshes its `updated_at` to the sampled current instant.  Reports
/// not-found, and changes nothing, exactly when no row carries `id`.
pub fn update(t: &mut Table<Create>, id: i32, payload: Create) -> (st: Status)
    requires
        old(t).wf(),
    ensures
        final(t).wf(),
        final(t).next_id_spec() == old(t).next_id_spec(),
        st == status_of_match(contains_id(old(t)@, id)),
        contains_id(old(t)@, id) ==> final(t)@ == old(t)@.update(
            index_of_id(old(t)@, id),
            Row {
                id,
                payload,
                created_at: old(t)@[index_of_id(old(t)@, id)].created_at,
                updated_at: final(t)@[index_of_id(old(t)@, id)].updated_at,
            },
        ),
        !contains_id(old(t)@, id) ==> final(t)@ == old(t)@,
    {
        let now = now_timestamp();
        update_at(t, id, payload, now)
    }

/// Removes the quote carrying `id`; the other rows keep their order.
/// Reports not-found, and changes nothing, exactly when no row carries
/// `id`.
pub fn delete(t: &mut Table<Create>, id: i32) -> (st: Status)
    requires
        old(t).wf(),
    ensures
        final(t).wf(),
        final(t).next_id_spec() == old(t).next_id_spec(),
        st == status_of_match(contains_id(old(t)@, id)),
        contains_id(old(t)@, id) ==> final(t)@ == old(t)@.remove(index_of_id(old(t)@, id)),
        !contains_id(old(t)@, id) ==> final(t)@ == old(t)@,
    {
        t.delete(id)
    }

} // verus!
