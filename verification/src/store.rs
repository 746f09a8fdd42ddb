//! The generic CRUD table that each resource family instantiates.
//!
//! A table holds rows, each made of a store-generated identifier, a payload
//! (the user-supplied fields of one resource family) and two timestamps.
//! The five operations of the pattern — create, read-all, read-by-parent,
//! update-by-id and delete-by-id — are verified here once, over any payload
//! type.

use vstd::prelude::*;

verus! {

/// Outcome of an operation aimed at the store, as reported to clients.
#[derive(Clone, Copy, Debug, PartialEq, Eq, Structural)]
pub enum Status {
    /// The operation affected at least one row.
    Success,
    /// An update or delete aimed at an id that no row carries.
    NotFound,
    /// A storage-layer failure, whatever its cause.
    ServerError,
}

impl Status {
    /// The HTTP status code this outcome is reported as.
    pub open spec fn code_spec(self) -> u16 {
        match self {
            Status::Success => 200,
            Status::NotFound => 404,
            Status::ServerError => 500,
        }
    }

    /// The HTTP status code this outcome is reported as.
    pub fn code(self) -> (r: u16)
        ensures
            r == self.code_spec(),
    {
        match self {
            Status::Success => 200,
            Status::NotFound => 404,
            Status::ServerError => 500,
        }
    }
}

/// The outcome an update or delete owes: not-found exactly when no row
/// carried the targeted id, success otherwise.
pub open spec fn status_of_match(found: bool) -> Status {
    if found {
        Status::Success
    } else {
        Status::NotFound
    }
}

/// Maps the row count reported by the store for an update or delete to the
/// status returned to the client: zero rows affected means not-found.
pub fn status_of_rows_affected(rows_affected: u64) -> (r: Status)
    ensures
        r == status_of_match(rows_affected != 0),
{
    if rows_affected == 0 {
        Status::NotFound
    } else {
        Status::Success
    }
}

/// Maps the storage layer's report of an update or delete — the affected
/// row count on success, or any failure whatever its cause — to the status
/// returned to the client.
pub fn status_of_execute<E>(res: Result<u64, E>) -> (r: Status)
    ensures
        res matches Ok(n) ==> r == status_of_match(n != 0),
        res matches Err(_) ==> r == Status::ServerError,
{
    match res {
        Ok(n) => status_of_rows_affected(n),
        Err(_) => Status::ServerError,
    }
}

/// One stored row: the generated id, the user-supplied fields, and the two
/// server-set timestamps (microseconds of Unix time).
pub struct Row<P> {
    pub id: i32,
    pub payload: P,
    pub created_at: i64,
    pub updated_at: i64,
}

/// A payload type that carries a foreign key to a parent resource.
pub trait ParentKeyed {
    /// The value of the foreign-key field.
    spec fn parent_key(&self) -> i32;

    /// Reads the foreign-key field.
    fn parent(&self) -> (r: i32)
        ensures
            r == self.parent_key(),
    ;
}

/// True when no two rows of `s` carry the same id.
pub open spec fn unique_ids<P>(s: Seq<Row<P>>) -> bool {
    forall|i: int, j: int| 0 <= i < j < s.len() ==> s[i].id != s[j].id
}

/// True when some row of `s` carries `id`.
pub open spec fn contains_id<P>(s: Seq<Row<P>>, id: i32) -> bool {
    exists|i: int| 0 <= i < s.len() && s[i].id == id
}

/// The index of the row of `s` carrying `id` (meaningful when such a row
/// exists; unique when ids are unique).
pub open spec fn index_of_id<P>(s: Seq<Row<P>>, id: i32) -> int {
    choose|i: int| 0 <= i < s.len() && s[i].id == id
}

/// One table of the store: its rows, and the id the next insert receives.
pub struct Table<P> {
    rows: Vec<Row<P>>,
    next_id: i32,
}

impl<P> View for Table<P> {
    type V = Seq<Row<P>>;

    closed spec fn view(&self) -> Seq<Row<P>> {
        self.rows@
    }
}

impl<P> Table<P> {
    /// The id the next insert receives.
    pub closed spec fn next_id_spec(&self) -> i32 {
        self.next_id
    }

    /// The table's invariant: ids are positive, unique, assigned by the
    /// store in increasing order, and all below the next free id.
    pub open spec fn wf(&self) -> bool {
        &&& 1 <= self.next_id_spec()
        &&& forall|i: int|
            0 <= i < self@.len() ==> 1 <= (#[trigger] self@[i]).id < self.next_id_spec()
        &&& unique_ids(self@)
    }

    /// True when the store can still assign a fresh id.
    pub open spec fn can_insert(&self) -> bool {
        self.next_id_spec() < i32::MAX
    }

    /// An empty table, ready to assign id 1 first.
    pub fn new() -> (t: Self)
        ensures
            t.wf(),
            t@ == Seq::<Row<P>>::empty(),
            t.next_id_spec() == 1,
    {
        Table { rows: Vec::new(), next_id: 1 }
    }

    /// How many rows the table holds.
    pub fn len(&self) -> (n: usize)
        ensures
            n == self@.len(),
    {
        self.rows.len()
    }

    /// Appends a new row made of the payload and the creation instant:
    /// both timestamps are set to `now`, and the id is the next free one.
    pub fn insert(&mut self, payload: P, now: i64) -> (id: i32)
        requires
            old(self).wf(),
            old(self).can_insert(),
        ensures
            final(self).wf(),
            id == old(self).next_id_spec(),
            final(self).next_id_spec() == old(self).next_id_spec() + 1,
            final(self)@ == old(self)@.push(
                Row { id, payload, created_at: now, updated_at: now },
            ),
    {
        let id = self.next_id;
        self.rows.push(Row { id, payload, created_at: now, updated_at: now });
        self.next_id = self.next_id + 1;
        id
    }

    /// Every row of the table, in storage order.
    pub fn read_all(&self) -> (r: &Vec<Row<P>>)
        ensures
            r@ == self@,
    {
        &self.rows
    }

    /// The position of the row carrying `id`, if any.
    fn find_index(&self, id: i32) -> (r: Option<usize>)
        requires
            self.wf(),
        ensures
            match r {
                Some(i) => i < self@.len() && self@[i as int].id == id,
                None => !contains_id(self@, id),
            },
    {
        let mut i: usize = 0;
        while i < self.rows.len()
            invariant
                i <= self@.len(),
                forall|j: int| 0 <= j < i ==> (#[trigger] self@[j]).id != id,
            decreases self@.len() - i,
        {
            if self.rows[i].id == id {
                return Some(i);
            }
            i = i + 1;
        }
        None
    }

    /// Overwrites all user-supplied fields of the row carrying `id` and
    /// refreshes its `updated_at` to `now`; its id and `created_at` are
    /// kept.  When no row carries `id`, reports not-found and leaves the
    /// table unchanged.
    pub fn update(&mut self, id: i32, payload: P, now: i64) -> (st: Status)
        requires
            old(self).wf(),
        ensures
            final(self).wf(),
            final(self).next_id_spec() == old(self).next_id_spec(),
            st == status_of_match(contains_id(old(self)@, id)),
            contains_id(old(self)@, id) ==> final(self)@ == old(self)@.update(
                index_of_id(old(self)@, id),
                Row {
                    id,
                    payload,
                    created_at: old(self)@[index_of_id(old(self)@, id)].created_at,
                    updated_at: now,
                },
            ),
            !contains_id(old(self)@, id) ==> final(self)@ == old(self)@,
    {
        match self.find_index(id) {
            Some(i) => {
                proof {
                    lemma_index_of_id_unique(self@, id, i as int);
                }
                let created = self.rows[i].created_at;
                self.rows[i] = Row { id, payload, created_at: created, updated_at: now };
                Status::Success
            },
            None => Status::NotFound,
        }
    }

    /// Removes the row carrying `id`; the other rows keep their order.
    /// When no row carries `id`, reports not-found and leaves the table
    /// unchanged.
    pub fn delete(&mut self, id: i32) -> (st: Status)
        requires
            old(self).wf(),
        ensures
            final(self).wf(),
            final(self).next_id_spec() == old(self).next_id_spec(),
            st == status_of_match(contains_id(old(self)@, id)),
            contains_id(old(self)@, id) ==> final(self)@ == old(self)@.remove(
                index_of_id(old(self)@, id),
            ),
            !contains_id(old(self)@, id) ==> final(self)@ == old(self)@,
    {
        match self.find_index(id) {
            Some(i) => {
                proof {
                    lemma_index_of_id_unique(self@, id, i as int);
                }
                self.rows.remove(i);
                Status::Success
            },
            None => Status::NotFound,
        }
    }
}

/// The values a vector of borrowed rows points at, in order.
pub open spec fn rows_of<P>(s: Seq<&Row<P>>) -> Seq<Row<P>> {
    s.map_values(|x: &Row<P>| *x)
}

/// The rows of `s` whose foreign key equals `parent`, in storage order.
pub open spec fn parent_filter<P: ParentKeyed>(s: Seq<Row<P>>, parent: i32) -> Seq<Row<P>>
    decreases s.len(),
{
    if s.len() == 0 {
        Seq::empty()
    } else {
        let rest = parent_filter(s.drop_last(), parent);
        if s.last().payload.parent_key() == parent {
            rest.push(s.last())
        } else {
            rest
        }
    }
}

impl<P: ParentKeyed> Table<P> {
    /// The rows whose foreign-key field equals `parent`, in storage order;
    /// none matching yields an empty vector, never an error.
    pub fn read_by_parent(&self, parent: i32) -> (r: Vec<&Row<P>>)
        ensures
            rows_of(r@) == parent_filter(self@, parent),
    {
        let mut out: Vec<&Row<P>> = Vec::new();
        let mut i: usize = 0;
        while i < self.rows.len()
            invariant
                i <= self@.len(),
                rows_of(out@) =~= parent_filter(self@.subrange(0, i as int), parent),
            decreases self@.len() - i,
        {
            let ghost pre_out = out@;
            let ghost pre = self@.subrange(0, i as int);
            let ghost cur = self@.subrange(0, i as int + 1);
            proof {
                assert(cur.drop_last() =~= pre);
                assert(cur.last() == self@[i as int]);
            }
            let row = &self.rows[i];
            let key = row.payload.parent();
            if key == parent {
                out.push(row);
                proof {
                    assert(out@ == pre_out.push(row));
                    assert(rows_of(out@) =~= rows_of(pre_out).push(*row));
                    assert(parent_filter(cur, parent) == parent_filter(pre, parent).push(cur.last()));
                    assert(rows_of(out@) =~= parent_filter(cur, parent));
                }
            } else {
                proof {
                    assert(parent_filter(cur, parent) == parent_filter(pre, parent));
                    assert(rows_of(out@) =~= parent_filter(cur, parent));
                }
            }
            i = i + 1;
        }
        proof {
            assert(self@.subrange(0, i as int) =~= self@);
        }
        out
    }
}

/// Creating a record and then reading the whole table yields a sequence
/// that contains a row whose user-supplied fields equal the payload and
/// whose two timestamps are set and equal, both being the creation instant.
pub proof fn lemma_create_then_read_all<P>(
    pre: Seq<Row<P>>,
    post: Seq<Row<P>>,
    id: i32,
    payload: P,
    now: i64,
)
    requires
        post == pre.push(Row { id, payload, created_at: now, updated_at: now }),
    ensures
        post.len() == pre.len() + 1,
        exists|i: int|
            0 <= i < post.len() && (#[trigger] post[i]).id == id && post[i].payload == payload
                && post[i].created_at == now && post[i].updated_at == now
                && post[i].created_at == post[i].updated_at,
{
    let k = pre.len() as int;
    assert(post[k] == Row { id, payload, created_at: now, updated_at: now });
}

/// Deleting an existing id removes exactly one row, and a subsequent
/// read-all no longer contains that id.
pub proof fn lemma_delete_removes_exactly_one<P>(pre: Seq<Row<P>>, post: Seq<Row<P>>, id: i32)
    requires
        unique_ids(pre),
        contains_id(pre, id),
        post == pre.remove(index_of_id(pre, id)),
    ensures
        post.len() == pre.len() - 1,
        !contains_id(post, id),
{
    let k = index_of_id(pre, id);
    assert(0 <= k < pre.len() && pre[k].id == id);
    assert forall|i: int| 0 <= i < post.len() implies (#[trigger] post[i]).id != id by {
        if i < k {
            assert(post[i] == pre[i]);
        } else {
            assert(post[i] == pre[i + 1]);
        }
    }
}

/// Updating an existing id keeps the table's size and leaves a row with
/// that id whose user-supplied fields are the new payload, whose
/// `created_at` is untouched, and whose `updated_at` is the update instant;
/// every other row is untouched.
pub proof fn lemma_update_then_read_all<P>(
    pre: Seq<Row<P>>,
    post: Seq<Row<P>>,
    id: i32,
    payload: P,
    now: i64,
)
    requires
        unique_ids(pre),
        contains_id(pre, id),
        post == pre.update(
            index_of_id(pre, id),
            Row { id, payload, created_at: pre[index_of_id(pre, id)].created_at, updated_at: now },
        ),
    ensures
        post.len() == pre.len(),
        exists|i: int|
            0 <= i < post.len() && (#[trigger] post[i]).id == id && post[i].payload == payload
                && post[i].created_at == pre[index_of_id(pre, id)].created_at
                && post[i].updated_at == now,
        forall|i: int|
            0 <= i < pre.len() && i != index_of_id(pre, id) ==> post[i] == #[trigger] pre[i],
{
    let k = index_of_id(pre, id);
    assert(post[k].id == id && post[k].payload == payload && post[k].updated_at == now);
}

/// A filtered read returns exactly the rows whose foreign key matches:
/// every returned row matches, every matching row is returned, and when
/// none matches the result is empty.
pub proof fn lemma_parent_filter_exact<P: ParentKeyed>(s: Seq<Row<P>>, parent: i32)
    ensures
        forall|i: int|
            0 <= i < parent_filter(s, parent).len() ==> (#[trigger] parent_filter(s, parent)[i])
                .payload.parent_key() == parent,
        forall|i: int|
            0 <= i < s.len() && (#[trigger] s[i]).payload.parent_key() == parent ==> parent_filter(
                s,
                parent,
            ).contains(s[i]),
        (forall|i: int| 0 <= i < s.len() ==> (#[trigger] s[i]).payload.parent_key() != parent)
            ==> parent_filter(s, parent).len() == 0,
    decreases s.len(),
{
    if s.len() == 0 {
    } else {
        let head = s.drop_last();
        lemma_parent_filter_exact(head, parent);
        let rest = parent_filter(head, parent);
        assert forall|i: int|
            0 <= i < s.len() && (#[trigger] s[i]).payload.parent_key() == parent implies
            parent_filter(s, parent).contains(s[i]) by {
            if i < s.len() - 1 {
                assert(head[i] == s[i]);
                assert(rest.contains(s[i]));
                let j = choose|j: int| 0 <= j < rest.len() && rest[j] == s[i];
                assert(parent_filter(s, parent)[j] == s[i]);
            } else {
                let last = parent_filter(s, parent).len() - 1;
                assert(parent_filter(s, parent)[last] == s[i]);
            }
        }
    }
}

/// When ids are unique, a row's position is the one `index_of_id` picks.
pub proof fn lemma_index_of_id_unique<P>(s: Seq<Row<P>>, id: i32, i: int)
    requires
        unique_ids(s),
        0 <= i < s.len(),
        s[i].id == id,
    ensures
        contains_id(s, id),
        index_of_id(s, id) == i,
{
    assert(contains_id(s, id));
    let j = index_of_id(s, id);
    assert(0 <= j < s.len() && s[j].id == id);
    if i < j {
        assert(s[i].id != s[j].id);
    } else if j < i {
        assert(s[j].id != s[i].id);
    }
}

} // verus!
