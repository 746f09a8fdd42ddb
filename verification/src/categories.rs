//! The categories resource family: each category belongs to a parent
//! section through the `secId` foreign key.

use vstd::prelude::*;
use crate::clock::now_timestamp;
use crate::store::{
    contains_id, index_of_id, parent_filter, rows_of, status_of_match, ParentKeyed, Row, Status,
    Table,
};

verus! {

/// The user-supplied fields of one category, `secId` being the id of its
/// parent section.
#[allow(non_snake_case)]
pub struct Create {
    pub name: String,
    pub aname: String,
    pub secId: i32,
    pub IMG: String,
}

impl Create {
    /// An exact copy, so that the stored row and the echoed record can
    /// both carry the fields.
    pub fn duplicate(&self) -> (r: Self)
        ensures
            r == *self,
    {
        Create {
            name: self.name.clone(),
            aname: self.aname.clone(),
            secId: self.secId,
            IMG: self.IMG.clone(),
        }
    }
}

impl ParentKeyed for Create {
    /// The id of the parent section.
    open spec fn parent_key(&self) -> i32 {
        self.secId
    }

    fn parent(&self) -> i32 {
        self.secId
    }
}

/// A stored category: the user-supplied fields plus the two server-set
/// timestamps, as the create and update routes echo it (without the id).
#[allow(non_snake_case)]
pub struct Category {
    pub secId: i32,
    pub name: String,
    pub aname: String,
    pub IMG: String,
    pub created_at: i64,
    pub updated_at: i64,
}

impl Category {
    /// The record stored at instant `now`: both timestamps are the
    /// creation instant.
    #[allow(non_snake_case)]
    pub fn new(secId: i32, name: String, aname: String, IMG: String, now: i64) -> (r: Self)
        ensures
            r.secId == secId,
            r.name == name,
            r.aname == aname,
            r.IMG == IMG,
            r.created_at == now,
            r.updated_at == now,
    {
        Category { secId, name, aname, IMG, created_at: now, updated_at: now }
    }
}

/// The read projection of one stored category: its fields plus the
/// store-generated id.
#[allow(non_snake_case)]
pub struct CatResponse {
    pub id: i32,
    pub name: String,
    pub aname: String,
    pub secId: i32,
    pub IMG: String,
    pub created_at: i64,
    pub updated_at: i64,
}

impl CatResponse {
    /// A projection assembled field by field.
    #[allow(non_snake_case)]
    pub fn new(
        id: i32,
        name: String,
        aname: String,
        secId: i32,
        created_at: i64,
        updated_at: i64,
        IMG: String,
    ) -> (r: Self)
        ensures
            r.id == id,
            r.name == name,
            r.aname == aname,
            r.secId == secId,
            r.IMG == IMG,
            r.created_at == created_at,
            r.updated_at == updated_at,
    {
        CatResponse { id, name, aname, secId, IMG, created_at, updated_at }
    }
}

/// The projection of one stored row, id included.
pub open spec fn projection_of(row: Row<Create>) -> CatResponse {
    CatResponse {
        id: row.id,
        name: row.payload.name,
        aname: row.payload.aname,
        secId: row.payload.secId,
        IMG: row.payload.IMG,
        created_at: row.created_at,
        updated_at: row.updated_at,
    }
}

/// The projections of all rows of `s`, in storage order.
pub open spec fn projections_of(s: Seq<Row<Create>>) -> Seq<CatResponse>
    decreases s.len(),
{
    if s.len() == 0 {
        Seq::empty()
    } else {
        projections_of(s.drop_last()).push(projection_of(s.last()))
    }
}

/// Reading projects row by row: the projections sequence has one element
/// per stored row, each the projection of the row at the same position.
pub proof fn lemma_projections_of(s: Seq<Row<Create>>)
    ensures
        projections_of(s).len() == s.len(),
        forall|i: int| 0 <= i < s.len() ==> projections_of(s)[i] == projection_of(#[trigger] s[i]),
    decreases s.len(),
{
    if s.len() > 0 {
        lemma_projections_of(s.drop_last());
        assert forall|i: int|
            0 <= i < s.len() implies projections_of(s)[i] == projection_of(#[trigger] s[i]) by {
            if i < s.len() - 1 {
                assert(s.drop_last()[i] == s[i]);
                assert(projections_of(s)[i] == projections_of(s.drop_last())[i]);
            } else {
                assert(projections_of(s)[i] == projection_of(s.last()));
            }
        }
    }
}

/// Inserts a new category as of the instant `now`: the stored row carries
/// the payload, the next free id, and both timestamps set to `now`.  The
/// stored record is echoed back, without its id.
pub fn create_at(t: &mut Table<Create>, payload: Create, now: i64) -> (r: Category)
    requires
        old(t).wf(),
        old(t).can_insert(),
    ensures
        final(t).wf(),
        final(t).next_id_spec() == old(t).next_id_spec() + 1,
        final(t)@ == old(t)@.push(
            Row { id: old(t).next_id_spec(), payload, created_at: now, updated_at: now },
        ),
        r.secId == payload.secId,
        r.name == payload.name,
        r.aname == payload.aname,
        r.IMG == payload.IMG,
        r.created_at == now,
        r.updated_at == now,
    {
        let copy = payload.duplicate();
        t.insert(payload, now);
        Category::new(copy.secId, copy.name, copy.aname, copy.IMG, now)
    }

/// Inserts a new category with server-set timestamps, both the sampled
/// current instant, and echoes the stored record, as the create route
/// responds.
pub fn create(t: &mut Table<Create>, payload: Create) -> (r: Category)
    requires
        old(t).wf(),
        old(t).can_insert(),
    ensures
        final(t).wf(),
        final(t).next_id_spec() == old(t).next_id_spec() + 1,
        final(t)@ == old(t)@.push(
            Row {
                id: old(t).next_id_spec(),
                payload,
                created_at: r.created_at,
                updated_at: r.created_at,
            },
        ),
        r.secId == payload.secId,
        r.name == payload.name,
        r.aname == payload.aname,
        r.IMG == payload.IMG,
        r.created_at == r.updated_at,
    {
        let now = now_timestamp();
        create_at(t, payload, now)
    }

/// Every stored category as its read projection, id included, in storage
/// order; an empty table yields an empty vector.
pub fn read(t: &Table<Create>) -> (r: Vec<CatResponse>)
    ensures
        r@ == projections_of(t@),
    {
        let rows = t.read_all();
        let mut out: Vec<CatResponse> = Vec::new();
        let mut i: usize = 0;
        while i < rows.len()
            invariant
                i <= t@.len(),
                rows@ == t@,
                out@ =~= projections_of(t@.subrange(0, i as int)),
            decreases t@.len() - i,
        {
            let ghost pre = t@.subrange(0, i as int);
            let ghost cur = t@.subrange(0, i as int + 1);
            proof {
                assert(cur.drop_last() =~= pre);
                assert(cur.last() == t@[i as int]);
            }
            let row = &rows[i];
            out.push(
                CatResponse::new(
                    row.id,
                    row.payload.name.clone(),
                    row.payload.aname.clone(),
                    row.payload.secId,
                    row.created_at,
                    row.updated_at,
                    row.payload.IMG.clone(),
                ),
            );
            proof {
                assert(out@ =~= projections_of(cur));
            }
            i = i + 1;
        }
        proof {
            assert(t@.subrange(0, i as int) =~= t@);
        }
        out
    }

/// The projections of exactly the categories whose `secId` equals the
/// given parent id, in storage order; none matching yields an empty
/// vector, never an error.
#[allow(non_snake_case)]
pub fn read_by_id(t: &Table<Create>, secId: i32) -> (r: Vec<CatResponse>)
    ensures
        r@ == projections_of(parent_filter(t@, secId)),
    {
        let refs = t.read_by_parent(secId);
        let ghost rows = rows_of(refs@);
        let mut out: Vec<CatResponse> = Vec::new();
        let mut i: usize = 0;
        while i < refs.len()
            invariant
                i <= refs@.len(),
                rows == rows_of(refs@),
                rows == parent_filter(t@, secId),
                out@ =~= projections_of(rows.subrange(0, i as int)),
            decreases refs@.len() - i,
        {
            let ghost pre = rows.subrange(0, i as int);
            let ghost cur = rows.subrange(0, i as int + 1);
            proof {
                assert(cur.drop_last() =~= pre);
                assert(cur.last() == rows[i as int]);
                assert(rows[i as int] == *refs@[i as int]);
            }
            let row: &Row<Create> = refs[i];
            out.push(
                CatResponse::new(
                    row.id,
                    row.payload.name.clone(),
                    row.payload.aname.clone(),
                    row.payload.secId,
                    row.created_at,
                    row.updated_at,
                    row.payload.IMG.clone(),
                ),
            );
            proof {
                assert(out@ =~= projections_of(cur));
            }
            i = i + 1;
        }
        proof {
            assert(rows.subrange(0, i as int) =~= rows);
        }
        out
    }

/// Overwrites the user-supplied fields of the category carrying `id` and
/// refreshes its `updated_at` to the instant `now`; its id and
/// `created_at` are kept.  Reports not-found, and changes nothing, exactly
/// when no row carries `id`.  The client-supplied new values are echoed
/// back as a record stamped with `now`.
pub fn update_at(t: &mut Table<Create>, id: i32, payload: Create, now: i64) -> (r: (
    Status,
    Category,
))
    requires
        old(t).wf(),
    ensures
        final(t).wf(),
        final(t).next_id_spec() == old(t).next_id_spec(),
        r.0 == status_of_match(contains_id(old(t)@, id)),
        contains_id(old(t)@, id) ==> final(t)@ == old(t)@.update(
            index_of_id(old(t)@, id),
            Row {
                id,
                payload,
                created_at: old(t)@[index_of_id(old(t)@, id)].created_at,
                updated_at: now,
            },
        ),
        !contains_id(old(t)@, id) ==> final(t)@ == old(t)@,
        r.1.secId == payload.secId,
        r.1.name == payload.name,
        r.1.aname == payload.aname,
        r.1.IMG == payload.IMG,
        r.1.created_at == now,
        r.1.updated_at == now,
    {
        let copy = payload.duplicate();
        let st = t.update(id, payload, now);
        (st, Category::new(copy.secId, copy.name, copy.aname, copy.IMG, now))
    }

/// Overwrites the user-supplied fields of the category carrying `id` and
/// refreshes its `updated_at` to the sampled current instant.  Reports
/// not-found, and changes nothing, exactly when no row carries `id`.  The
/// client-supplied new values are echoed back.
pub fn update(t: &mut Table<Create>, id: i32, payload: Create) -> (r: (Status, Category))
    requires
        old(t).wf(),
    ensures
        final(t).wf(),
        final(t).next_id_spec() == old(t).next_id_spec(),
        r.0 == status_of_match(contains_id(old(t)@, id)),
        contains_id(old(t)@, id) ==> final(t)@ == old(t)@.update(
            index_of_id(old(t)@, id),
            Row {
                id,
                payload,
                created_at: old(t)@[index_of_id(old(t)@, id)].created_at,
                updated_at: r.1.created_at,
            },
        ),
        !contains_id(old(t)@, id) ==> final(t)@ == old(t)@,
        r.1.secId == payload.secId,
        r.1.name == payload.name,
        r.1.aname == payload.aname,
        r.1.IMG == payload.IMG,
        r.1.created_at == r.1.updated_at,
    {
        let now = now_timestamp();
        update_at(t, id, payload, now)
    }

/// Removes the category carrying `id`; the other rows keep their order.
/// Reports not-found, and changes nothing, exactly when no row carries
/// `id`.
pub fn delete(t: &mut Table<Create>, id: i32) -> (st: Status)
    requires
        old(t).wf(),
    ensures
        final(t).wf(),
        final(t).next_id_spec() == old(t).next_id_spec(),
        st == status_of_match(contains_id(old(t)@, id)),
        contains_id(old(t)@, id) ==> final(t)@ == old(t)@.remove(index_of_id(old(t)@, id)),
        !contains_id(old(t)@, id) ==> final(t)@ == old(t)@,
    {
        t.delete(id)
    }

} // verus!
