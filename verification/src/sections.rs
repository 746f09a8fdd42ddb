//! The sections resource family: a name and its alternate-language name.

use vstd::prelude::*;
use crate::clock::now_timestamp;
use crate::store::{contains_id, index_of_id, status_of_match, Row, Status, Table};

verus! {

/// The user-supplied fields of one section.
pub struct Create {
    pub name: String,
    pub aname: String,
}

impl Create {
    /// An exact copy, so that the stored row and the echoed record can
    /// both carry the fields.
    pub fn duplicate(&self) -> (r: Self)
        ensures
            r == *self,
    {
        Create { name: self.name.clone(), aname: self.aname.clone() }
    }
}

/// A stored section: the user-supplied fields plus the two server-set
/// timestamps, as the create and update routes echo it (without the id).
pub struct Section {
    pub name: String,
    pub aname: String,
    pub created_at: i64,
    pub updated_at: i64,
}

impl Section {
    /// The record stored at instant `now`: both timestamps are the
    /// creation instant.
    pub fn new(name: String, aname: String, now: i64) -> (r: Self)
        ensures
            r.name == name,
            r.aname == aname,
            r.created_at == now,
            r.updated_at == now,
    {
        Section { name, aname, created_at: now, updated_at: now }
    }
}

/// The read projection of one stored section: its fields plus the
/// store-generated id.
pub struct SectionResponse {
    pub id: i32,
    pub name: String,
    pub aname: String,
    pub created_at: i64,
    pub updated_at: i64,
}

impl SectionResponse {
    /// A projection assembled field by field.
    pub fn new(id: i32, name: String, aname: String, created_at: i64, updated_at: i64) -> (r: Self)
        ensures
            r.id == id,
            r.name == name,
            r.aname == aname,
            r.created_at == created_at,
            r.updated_at == updated_at,
    {
        SectionResponse { id, name, aname, created_at, updated_at }
    }
}

/// The projection of one stored row, id included.
pub open spec fn projection_of(row: Row<Create>) -> SectionResponse {
    SectionResponse {
        id: row.id,
        name: row.payload.name,
        aname: row.payload.aname,
        created_at: row.created_at,
        updated_at: row.updated_at,
    }
}

/// The projections of all rows of `s`, in storage order.
pub open spec fn projections_of(s: Seq<Row<Create>>) -> Seq<SectionResponse>
    decreases s.len(),
{
    if s.len() == 0 {
        Seq::empty()
    } else {
        projections_of(s.drop_last()).push(projection_of(s.last()))
    }
}

/// Reading projects row by row: the projections sequence has one element
/// per stored row, each the projection of the row at the same position.
pub proof fn lemma_projections_of(s: Seq<Row<Create>>)
    ensures
        projections_of(s).len() == s.len(),
        forall|i: int| 0 <= i < s.len() ==> projections_of(s)[i] == projection_of(#[trigger] s[i]),
    decreases s.len(),
{
    if s.len() > 0 {
        lemma_projections_of(s.drop_last());
        assert forall|i: int|
            0 <= i < s.len() implies projections_of(s)[i] == projection_of(#[trigger] s[i]) by {
            if i < s.len() - 1 {
                assert(s.drop_last()[i] == s[i]);
                assert(projections_of(s)[i] == projections_of(s.drop_last())[i]);
            } else {
                assert(projections_of(s)[i] == projection_of(s.last()));
            }
        }
    }
}

/// Inserts a new section as of the instant `now`: the stored row carries
/// the payload, the next free id, and both timestamps set to `now`.  The
/// stored record is echoed back, without its id.
pub fn create_at(t: &mut Table<Create>, payload: Create, now: i64) -> (r: Section)
    requires
        old(t).wf(),
        old(t).can_insert(),
    ensures
        final(t).wf(),
        final(t).next_id_spec() == old(t).next_id_spec() + 1,
        final(t)@ == old(t)@.push(
            Row { id: old(t).next_id_spec(), payload, created_at: now, updated_at: now },
        ),
        r.name == payload.name,
        r.aname == payload.aname,
        r.created_at == now,
        r.updated_at == now,
    {
        let copy = payload.duplicate();
        t.insert(payload, now);
        Section::new(copy.name, copy.aname, now)
    }

/// Inserts a new section with server-set timestamps, both the sampled
/// current instant, and echoes the stored record, as the create route
/// responds.
pub fn create(t: &mut Table<Create>, payload: Create) -> (r: Section)
    requires
        old(t).wf(),
        old(t).can_insert(),
    ensures
        final(t).wf(),
        final(t).next_id_spec() == old(t).next_id_spec() + 1,
        final(t)@ == old(t)@.push(
            Row {
                id: old(t).next_id_spec(),
                payload,
                created_at: r.created_at,
                updated_at: r.created_at,
            },
        ),
        r.name == payload.name,
        r.aname == payload.aname,
        r.created_at == r.updated_at,
    {
        let now = now_timestamp();
        create_at(t, payload, now)
    }

/// Every stored section as its read projection, id included, in storage
/// order; an empty table yields an empty vector.
pub fn read(t: &Table<Create>) -> (r: Vec<SectionResponse>)
    ensures
        r@ == projections_of(t@),
    {
        let rows = t.read_all();
        let mut out: Vec<SectionResponse> = Vec::new();
        let mut i: usize = 0;
        while i < rows.len()
            invariant
                i <= t@.len(),
                rows@ == t@,
                out@ =~= projections_of(t@.subrange(0, i as int)),
            decreases t@.len() - i,
        {
            let ghost pre = t@.subrange(0, i as int);
            let ghost cur = t@.subrange(0, i as int + 1);
            proof {
                assert(cur.drop_last() =~= pre);
                assert(cur.last() == t@[i as int]);
            }
            let row = &rows[i];
            out.push(
                SectionResponse::new(
                    row.id,
                    row.payload.name.clone(),
                    row.payload.aname.clone(),
                    row.created_at,
                    row.updated_at,
                ),
            );
            proof {
                assert(out@ =~= projections_of(cur));
            }
            i = i + 1;
        }
        proof {
            assert(t@.subrange(0, i as int) =~= t@);
        }
        out
    }

/// Overwrites the user-supplied fields of the section carrying `id` and
/// refreshes its `updated_at` to the instant `now`; its id and
/// `created_at` are kept.  Reports not-found, and changes nothing, exactly
/// when no row carries `id`.  The client-supplied new values are echoed
/// back as a record stamped with `now`.
pub fn update_at(t: &mut Table<Create>, id: i32, payload: Create, now: i64) -> (r: (
    Status,
    Section,
))
    requires
        old(t).wf(),
    ensures
        final(t).wf(),
        final(t).next_id_spec() == old(t).next_id_spec(),
        r.0 == status_of_match(contains_id(old(t)@, id)),
        contains_id(old(t)@, id) ==> final(t)@ == old(t)@.update(
            index_of_id(old(t)@, id),
            Row {
                id,
                payload,
                created_at: old(t)@[index_of_id(old(t)@, id)].created_at,
                updated_at: now,
            },
        ),
        !contains_id(old(t)@, id) ==> final(t)@ == old(t)@,
        r.1.name == payload.name,
        r.1.aname == payload.aname,
        r.1.created_at == now,
        r.1.updated_at == now,
    {
        let copy = payload.duplicate();
        let st = t.update(id, payload, now);
        (st, Section::new(copy.name, copy.aname, now))
    }

/// Overwrites the user-supplied fields of the section carrying `id` and
/// refreshes its `updated_at` to the sampled current instant.  Reports
/// not-found, and changes nothing, exactly when no row carries `id`.  The
/// client-supplied new values are echoed back.
pub fn update(t: &mut Table<Create>, id: i32, payload: Create) -> (r: (Status, Section))
    requires
        old(t).wf(),
    ensures
        final(t).wf(),
        final(t).next_id_spec() == old(t).next_id_spec(),
        r.0 == status_of_match(contains_id(old(t)@, id)),
        contains_id(old(t)@, id) ==> final(t)@ == old(t)@.update(
            index_of_id(old(t)@, id),
            Row {
                id,
                payload,
                created_at: old(t)@[index_of_id(old(t)@, id)].created_at,
                updated_at: r.1.created_at,
            },
        ),
        !contains_id(old(t)@, id) ==> final(t)@ == old(t)@,
        r.1.name == payload.name,
        r.1.aname == payload.aname,
        r.1.created_at == r.1.updated_at,
    {
        let now = now_timestamp();
        update_at(t, id, payload, now)
    }

/// Removes the section carrying `id`; the other rows keep their order.
/// Reports not-found, and changes nothing, exactly when no row carries
/// `id`.
pub fn delete(t: &mut Table<Create>, id: i32) -> (st: Status)
    requires
        old(t).wf(),
    ensures
        final(t).wf(),
        final(t).next_id_spec() == old(t).next_id_spec(),
        st == status_of_match(contains_id(old(t)@, id)),
        contains_id(old(t)@, id) ==> final(t)@ == old(t)@.remove(index_of_id(old(t)@, id)),
        !contains_id(old(t)@, id) ==> final(t)@ == old(t)@,
    {
        t.delete(id)
    }

} // verus!
