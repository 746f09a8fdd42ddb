//! The items resource family: each item belongs to a parent category
//! through the `catId` foreign key.

use vstd::prelude::*;
use crate::clock::now_timestamp;
use crate::store::{
    contains_id, index_of_id, parent_filter, rows_of, status_of_match, ParentKeyed, Row, Status,
    Table,
};

verus! {

/// The user-supplied fields of one item, `catId` being the id of its
/// parent category.
#[allow(non_snake_case)]
pub struct Create {
    pub catId: i32,
    pub name: String,
    pub aname: String,
    pub IMG: String,
    pub price: String,
    pub desc: String,
    pub adesc: String,
}

impl Create {
    /// An exact copy, so that the stored row and the echoed record can
    /// both carry the fields.
    pub fn duplicate(&self) -> (r: Self)
        ensures
            r == *self,
    {
        Create {
            catId: self.catId,
            name: self.name.clone(),
            aname: self.aname.clone(),
            IMG: self.IMG.clone(),
            price: self.price.clone(),
            desc: self.desc.clone(),
            adesc: self.adesc.clone(),
        }
    }
}

impl ParentKeyed for Create {
    /// The id of the parent category.
    open spec fn parent_key(&self) -> i32 {
        self.catId
    }

    fn parent(&self) -> i32 {
        self.catId
    }
}

/// A stored item: the user-supplied fields plus the two server-set
/// timestamps, as the create and update routes echo it (without the id).
#[allow(non_snake_case)]
pub struct Item {
    pub catId: i32,
    pub name: String,
    pub aname: String,
    pub IMG: String,
    pub price: String,
    pub desc: String,
    pub adesc: String,
    pub created_at: i64,
    pub updated_at: i64,
}

impl Item {
    /// The record stored at instant `now`: both timestamps are the
    /// creation instant.
    #[allow(non_snake_case)]
    pub fn new(
        catId: i32,
        name: String,
        aname: String,
        IMG: String,
        price: String,
        desc: String,
        adesc: String,
        now: i64,
    ) -> (r: Self)
        ensures
            r.catId == catId,
            r.name == name,
            r.aname == aname,
            r.IMG == IMG,
            r.price == price,
            r.desc == desc,
            r.adesc == adesc,
            r.created_at == now,
            r.updated_at == now,
    {
        Item { catId, name, aname, IMG, price, desc, adesc, created_at: now, updated_at: now }
    }
}

/// The read projection of one stored item: its fields plus the
/// store-generated id.
#[allow(non_snake_case)]
pub struct ItemRes {
    pub catId: i32,
    pub id: i32,
    pub name: String,
    pub aname: String,
    pub IMG: String,
    pub price: String,
    pub desc: String,
    pub adesc: String,
    pub created_at: i64,
    pub updated_at: i64,
}

impl ItemRes {
    /// A projection assembled field by field.
    #[allow(non_snake_case)]
    pub fn new(
        catId: i32,
        id: i32,
        name: String,
        aname: String,
        IMG: String,
        price: String,
        desc: String,
        adesc: String,
        created_at: i64,
        updated_at: i64,
    ) -> (r: Self)
        ensures
            r.catId == catId,
            r.id == id,
            r.name == name,
            r.aname == aname,
            r.IMG == IMG,
            r.price == price,
            r.desc == desc,
            r.adesc == adesc,
            r.created_at == created_at,
            r.updated_at == updated_at,
    {
        ItemRes { catId, id, name, aname, IMG, price, desc, adesc, created_at, updated_at }
    }
}

/// The projection of one stored row, id included.
pub open spec fn projection_of(row: Row<Create>) -> ItemRes {
    ItemRes {
        catId: row.payload.catId,
        id: row.id,
        name: row.payload.name,
        aname: row.payload.aname,
        IMG: row.payload.IMG,
        price: row.payload.price,
        desc: row.payload.desc,
        adesc: row.payload.adesc,
        created_at: row.created_at,
        updated_at: row.updated_at,
    }
}

/// The projections of all rows of `s`, in storage order.
pub open spec fn projections_of(s: Seq<Row<Create>>) -> Seq<ItemRes>
    decreases s.len(),
{
    if s.len() == 0 {
        Seq::empty()
    } else {
        projections_of(s.drop_last()).push(projection_of(s.last()))
    }
}

/// Builds the projection of one borrowed row, cloning its fields.
fn project(row: &Row<Create>) -> (r: ItemRes)
    ensures
        r == projection_of(*row),
{
    ItemRes::new(
        row.payload.catId,
        row.id,
        row.payload.name.clone(),
        row.payload.aname.clone(),
        row.payload.IMG.clone(),
        row.payload.price.clone(),
        row.payload.desc.clone(),
        row.payload.adesc.clone(),
        row.created_at,
        row.updated_at,
    )
}

/// Reading projects row by row: the projections sequence has one element
/// per stored row, each the projection of the row at the same position.
pub proof fn lemma_projections_of(s: Seq<Row<Create>>)
    ensures
        projections_of(s).len() == s.len(),
        forall|i: int| 0 <= i < s.len() ==> projections_of(s)[i] == projection_of(#[trigger] s[i]),
    decreases s.len(),
{
    if s.len() > 0 {
        lemma_projections_of(s.drop_last());
        assert forall|i: int|
            0 <= i < s.len() implies projections_of(s)[i] == projection_of(#[trigger] s[i]) by {
            if i < s.len() - 1 {
                assert(s.drop_last()[i] == s[i]);
                assert(projections_of(s)[i] == projections_of(s.drop_last())[i]);
            } else {
                assert(projections_of(s)[i] == projection_of(s.last()));
            }
        }
    }
}

/// Inserts a new item as of the instant `now`: the stored row carries the
/// payload, the next free id, and both timestamps set to `now`.  The
/// stored record is echoed back, without its id.
pub fn create_at(t: &mut Table<Create>, payload: Create, now: i64) -> (r: Item)
    requires
        old(t).wf(),
        old(t).can_insert(),
    ensures
        final(t).wf(),
        final(t).next_id_spec() == old(t).next_id_spec() + 1,
        final(t)@ == old(t)@.push(
            Row { id: old(t).next_id_spec(), payload, created_at: now, updated_at: now },
        ),
        r.catId == payload.catId,
        r.name == payload.name,
        r.aname == payload.aname,
        r.IMG == payload.IMG,
        r.price == payload.price,
        r.desc == payload.desc,
        r.adesc == payload.adesc,
        r.created_at == now,
        r.updated_at == now,
    {
        let copy = payload.duplicate();
        t.insert(payload, now);
        Item::new(copy.catId, copy.name, copy.aname, copy.IMG, copy.price, copy.desc, copy.adesc, now)
    }

/// Inserts a new item with server-set timestamps, both the sampled current
/// instant, and echoes the stored record, as the create route responds.
pub fn create(t: &mut Table<Create>, payload: Create) -> (r: Item)
    requires
        old(t).wf(),
        old(t).can_insert(),
    ensures
        final(t).wf(),
        final(t).next_id_spec() == old(t).next_id_spec() + 1,
        final(t)@ == old(t)@.push(
            Row {
                id: old(t).next_id_spec(),
                payload,
                created_at: r.created_at,
                updated_at: r.created_at,
            },
        ),
        r.catId == payload.catId,
        r.name == payload.name,
        r.aname == payload.aname,
        r.IMG == payload.IMG,
        r.price == payload.price,
        r.desc == payload.desc,
        r.adesc == payload.adesc,
        r.created_at == r.updated_at,
    {
        let now = now_timestamp();
        create_at(t, payload, now)
    }

/// Every stored item as its read projection, id included, in storage
/// order; an empty table yields an empty vector.
pub fn read(t: &Table<Create>) -> (r: Vec<ItemRes>)
    ensures
        r@ == projections_of(t@),
    {
        let rows = t.read_all();
        let mut out: Vec<ItemRes> = Vec::new();
        let mut i: usize = 0;
        while i < rows.len()
            invariant
                i <= t@.len(),
                rows@ == t@,
                out@ =~= projections_of(t@.subrange(0, i as int)),
            decreases t@.len() - i,
        {
            let ghost pre = t@.subrange(0, i as int);
            let ghost cur = t@.subrange(0, i as int + 1);
            proof {
                assert(cur.drop_last() =~= pre);
                assert(cur.last() == t@[i as int]);
            }
            let row = &rows[i];
            out.push(project(row));
            proof {
                assert(out@ =~= projections_of(cur));
            }
            i = i + 1;
        }
        proof {
            assert(t@.subrange(0, i as int) =~= t@);
        }
        out
    }

/// The projections of exactly the items whose `catId` equals the given
/// parent id, in storage order; none matching yields an empty vector,
/// never an error.
#[allow(non_snake_case)]
pub fn read_by_id(t: &Table<Create>, catId: i32) -> (r: Vec<ItemRes>)
    ensures
        r@ == projections_of(parent_filter(t@, catId)),
    {
        let refs = t.read_by_parent(catId);
        let ghost rows = rows_of(refs@);
        let mut out: Vec<ItemRes> = Vec::new();
        let mut i: usize = 0;
        while i < refs.len()
            invariant
                i <= refs@.len(),
                rows == rows_of(refs@),
                rows == parent_filter(t@, catId),
                out@ =~= projections_of(rows.subrange(0, i as int)),
            decreases refs@.len() - i,
        {
            let ghost pre = rows.subrange(0, i as int);
            let ghost cur = rows.subrange(0, i as int + 1);
            proof {
                assert(cur.drop_last() =~= pre);
                assert(cur.last() == rows[i as int]);
                assert(rows[i as int] == *refs@[i as int]);
            }
            let row: &Row<Create> = refs[i];
            out.push(project(row));
            proof {
                assert(out@ =~= projections_of(cur));
            }
            i = i + 1;
        }
        proof {
            assert(rows.subrange(0, i as int) =~= rows);
        }
        out
    }

/// Overwrites the user-supplied fields of the item carrying `id` and
/// refreshes its `updated_at` to the instant `now`; its id and
/// `created_at` are kept.  Reports not-found, and changes nothing, exactly
/// when no row carries `id`.  The client-supplied new values are echoed
/// back as a record stamped with `now`.
pub fn update_at(t: &mut Table<Create>, id: i32, payload: Create, now: i64) -> (r: (Status, Item))
    requires
        old(t).wf(),
    ensures
        final(t).wf(),
        final(t).next_id_spec() == old(t).next_id_spec(),
        r.0 == status_of_match(contains_id(old(t)@, id)),
        contains_id(old(t)@, id) ==> final(t)@ == old(t)@.update(
            index_of_id(old(t)@, id),
            Row {
                id,
                payload,
                created_at: old(t)@[index_of_id(old(t)@, id)].created_at,
                updated_at: now,
            },
        ),
        !contains_id(old(t)@, id) ==> final(t)@ == old(t)@,
        r.1.catId == payload.catId,
        r.1.name == payload.name,
        r.1.aname == payload.aname,
        r.1.IMG == payload.IMG,
        r.1.price == payload.price,
        r.1.desc == payload.desc,
        r.1.adesc == payload.adesc,
        r.1.created_at == now,
        r.1.updated_at == now,
    {
        let copy = payload.duplicate();
        let st = t.update(id, payload, now);
        (
            st,
            Item::new(
                copy.catId,
                copy.name,
                copy.aname,
                copy.IMG,
                copy.price,
                copy.desc,
                copy.adesc,
                now,
            ),
        )
    }

/// Overwrites the user-supplied fields of the item carrying `id` and
/// refreshes its `updated_at` to the sampled current instant.  Reports
/// not-found, and changes nothing, exactly when no row carries `id`.  The
/// client-supplied new values are echoed back.
pub fn update(t: &mut Table<Create>, id: i32, payload: Create) -> (r: (Status, Item))
    requires
        old(t).wf(),
    ensures
        final(t).wf(),
        final(t).next_id_spec() == old(t).next_id_spec(),
        r.0 == status_of_match(contains_id(old(t)@, id)),
        contains_id(old(t)@, id) ==> final(t)@ == old(t)@.update(
            index_of_id(old(t)@, id),
            Row {
                id,
                payload,
                created_at: old(t)@[index_of_id(old(t)@, id)].created_at,
                updated_at: r.1.created_at,
            },
        ),
        !contains_id(old(t)@, id) ==> final(t)@ == old(t)@,
        r.1.catId == payload.catId,
        r.1.name == payload.name,
        r.1.aname == payload.aname,
        r.1.IMG == payload.IMG,
        r.1.price == payload.price,
        r.1.desc == payload.desc,
        r.1.adesc == payload.adesc,
        r.1.created_at == r.1.updated_at,
    {
        let now = now_timestamp();
        update_at(t, id, payload, now)
    }

/// Removes the item carrying `id`; the other rows keep their order.
/// Reports not-found, and changes nothing, exactly when no row carries
/// `id`.
pub fn delete(t: &mut Table<Create>, id: i32) -> (st: Status)
    requires
        old(t).wf(),
    ensures
        final(t).wf(),
        final(t).next_id_spec() == old(t).next_id_spec(),
        st == status_of_match(contains_id(old(t)@, id)),
        contains_id(old(t)@, id) ==> final(t)@ == old(t)@.remove(index_of_id(old(t)@, id)),
        !contains_id(old(t)@, id) ==> final(t)@ == old(t)@,
    {
        t.delete(id)
    }

} // verus!
