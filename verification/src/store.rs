//! The storage gateway's semantics: one user table, keyed by a
//! store-assigned integer id.
//!
//! `UserTable` models the three statements the handlers issue: an insert
//! that assigns a fresh id and timestamp and returns the row, a select of
//! the single row matching an id, and an update that flips the status of
//! the matching row (a no-op when no row matches). Rows are never removed.

use vstd::prelude::*;
use crate::user::{User, UserRole, UserStatus, UserView};

verus! {

/// Whether some row of `rows` carries the id `id`.
pub open spec fn has_id(rows: Seq<UserView>, id: int) -> bool {
    exists|i: int| 0 <= i < rows.len() && rows[i].id == id
}

/// The row of `rows` carrying the id `id`, or `None` when there is none.
/// On a table whose ids are unique this picks the one matching row.
pub open spec fn find_user(rows: Seq<UserView>, id: int) -> Option<UserView> {
    if has_id(rows, id) {
        Some(rows[choose|i: int| 0 <= i < rows.len() && rows[i].id == id])
    } else {
        None
    }
}

/// `rows` with the status of every row carrying the id `id` replaced by
/// `status`, and every other row unchanged.
pub open spec fn set_status(rows: Seq<UserView>, id: int, status: UserStatus) -> Seq<UserView> {
    rows.map_values(
        |u: UserView|
            if u.id == id {
                UserView { status, ..u }
            } else {
                u
            },
    )
}

/// Round trip: appending a row whose id no existing row carries, and then
/// looking that id up, yields exactly the appended row — in particular its
/// `name`, `email` and `password` are the values it was created with.
pub proof fn lemma_insert_then_find(rows: Seq<UserView>, u: UserView)
    requires
        !has_id(rows, u.id),
    ensures
        find_user(rows.push(u), u.id) == Some(u),
{
    let rows2 = rows.push(u);
    assert(rows2[rows.len() as int] == u);
    assert(has_id(rows2, u.id));
    let k = choose|k: int| 0 <= k < rows2.len() && rows2[k].id == u.id;
    if k < rows.len() {
        assert(rows[k] == rows2[k]);
        assert(has_id(rows, u.id));
    }
}

/// Idempotence of the soft delete's state change: setting the status of
/// the rows matching `id` twice leaves the same table as setting it once.
pub proof fn lemma_set_status_idempotent(rows: Seq<UserView>, id: int, status: UserStatus)
    ensures
        set_status(set_status(rows, id, status), id, status) == set_status(rows, id, status),
{
    assert(set_status(set_status(rows, id, status), id, status) =~= set_status(
        rows,
        id,
        status,
    ));
}

/// After a soft delete, a fetch of the same id still finds the row exactly
/// when it was present before, and the row it finds carries the new status.
pub proof fn lemma_find_after_set_status(rows: Seq<UserView>, id: int, status: UserStatus)
    ensures
        has_id(rows, id) ==> (find_user(set_status(rows, id, status), id) matches Some(u)
            && u.id == id && u.status == status),
        !has_id(rows, id) ==> find_user(set_status(rows, id, status), id) is None,
{
    let rows2 = set_status(rows, id, status);
    if has_id(rows, id) {
        let w = choose|i: int| 0 <= i < rows.len() && rows[i].id == id;
        assert(rows2[w].id == id);
        assert(has_id(rows2, id));
        let k = choose|k: int| 0 <= k < rows2.len() && rows2[k].id == id;
        assert(rows[k].id == id);
        assert(rows2[k].status == status);
    } else {
        if has_id(rows2, id) {
            let k = choose|k: int| 0 <= k < rows2.len() && rows2[k].id == id;
            assert(rows[k].id == id);
        }
    }
}

/// The user table: rows in insertion order, plus the id the store will
/// assign to the next inserted row.
pub struct UserTable {
    rows: Vec<User>,
    next_id: i32,
}

impl View for UserTable {
    type V = Seq<UserView>;

    closed spec fn view(&self) -> Seq<UserView> {
        self.rows@.map_values(|u: User| u@)
    }
}

impl UserTable {
    /// The id the store will assign to the next inserted row.
    pub closed spec fn spec_next_id(&self) -> int {
        self.next_id as int
    }

    /// The table's invariant: ids are positive, below the next free id,
    /// and no two rows share one.
    pub closed spec fn wf(&self) -> bool {
        &&& 1 <= self.next_id
        &&& forall|i: int|
            0 <= i < self@.len() ==> 1 <= (#[trigger] self@[i]).id < self.spec_next_id()
        &&& forall|i: int, j: int|
            0 <= i < j < self@.len() ==> self@[i].id != self@[j].id
    }

    /// An empty table, as the store presents it before any insert.
    pub fn new() -> (t: UserTable)
        ensures
            t.wf(),
            t@ == Seq::<UserView>::empty(),
            t.spec_next_id() == 1,
    {
        let t = UserTable { rows: Vec::new(), next_id: 1 };
        proof {
            assert(t@ =~= Seq::<UserView>::empty());
        }
        t
    }

    /// The insert-and-return statement: appends a row with a fresh,
    /// store-assigned id and the given creation time, and returns it.
    pub fn insert_returning(
        &mut self,
        name: String,
        email: String,
        password: String,
        role: UserRole,
        status: UserStatus,
        now: i64,
    ) -> (u: User)
        requires
            old(self).wf(),
            old(self).spec_next_id() < i32::MAX,
        ensures
            final(self).wf(),
            u@.name == name@,
            u@.email == email@,
            u@.password == password@,
            u@.role == role,
            u@.status == status,
            u@.created_at == now as int,
            u@.id == old(self).spec_next_id(),
            !has_id(old(self)@, u@.id),
            final(self)@ == old(self)@.push(u@),
            final(self).spec_next_id() == old(self).spec_next_id() + 1,
    {
        let id = self.next_id;
        let row = User {
            id,
            name: name.clone(),
            email: email.clone(),
            password: password.clone(),
            role,
            status,
            created_at: now,
        };
        let u = User { id, name, email, password, role, status, created_at: now };
        self.rows.push(row);
        self.next_id = self.next_id + 1;
        proof {
            assert(self@ =~= old(self)@.push(u@));
        }
        u
    }

    /// The select-by-id statement: the one row matching `id`, or `None`.
    pub fn select_by_id(&self, id: i32) -> (r: Option<User>)
        requires
            self.wf(),
        ensures
            r matches Some(u) ==> find_user(self@, id as int) == Some(u@),
            r is Some <==> has_id(self@, id as int),
    {
        let n = self.rows.len();
        let mut i: usize = 0;
        while i < n
            invariant
                self.wf(),
                n == self.rows.len(),
                i <= n,
                forall|j: int| 0 <= j < i ==> self@[j].id != id as int,
            decreases n - i,
        {
            if self.rows[i].id == id {
                let found = &self.rows[i];
                let u = User {
                    id: found.id,
                    name: found.name.clone(),
                    email: found.email.clone(),
                    password: found.password.clone(),
                    role: found.role,
                    status: found.status,
                    created_at: found.created_at,
                };
                proof {
                    assert(self@[i as int].id == id as int);
                    assert(has_id(self@, id as int));
                    let k = choose|k: int| 0 <= k < self@.len() && self@[k].id == id as int;
                    assert(self@[k] == self@[i as int]);
                }
                return Some(u);
            }
            i = i + 1;
        }
        proof {
            assert(!has_id(self@, id as int));
        }
        None
    }

    /// The update statement: sets the status of every row matching `id`
    /// (at most one, by the invariant) and returns how many were affected.
    pub fn set_status_by_id(&mut self, id: i32, status: UserStatus) -> (n: usize)
        requires
            old(self).wf(),
        ensures
            final(self).wf(),
            final(self)@ == set_status(old(self)@, id as int, status),
            final(self).spec_next_id() == old(self).spec_next_id(),
            n == 1 <==> has_id(old(self)@, id as int),
            n <= 1,
    {
        let len = self.rows.len();
        let mut i: usize = 0;
        let mut n: usize = 0;
        while i < len
            invariant
                len == self.rows.len(),
                self@.len() == len,
                old(self)@.len() == len,
                i <= len,
                self.spec_next_id() == old(self).spec_next_id(),
                old(self).wf(),
                forall|j: int|
                    0 <= j < i ==> #[trigger] set_status(old(self)@, id as int, status)[j]
                        == self@[j],
                forall|j: int| i <= j < len ==> #[trigger] old(self)@[j] == self@[j],
                n <= 1,
                n == 1 <==> exists|j: int| 0 <= j < i && old(self)@[j].id == id as int,
            decreases len - i,
        {
            if self.rows[i].id == id {
                let found = &self.rows[i];
                let updated = User {
                    id: found.id,
                    name: found.name.clone(),
                    email: found.email.clone(),
                    password: found.password.clone(),
                    role: found.role,
                    status,
                    created_at: found.created_at,
                };
                proof {
                    assert(self@[i as int] == old(self)@[i as int]);
                    assert(updated@ == (UserView { status, ..old(self)@[i as int] }));
                    assert(old(self)@[i as int].id == id as int);
                }
                let ghost pre = self@;
                let ghost pre_rows = self.rows@;
                self.rows.set(i, updated);
                proof {
                    assert(self@[i as int] == set_status(old(self)@, id as int, status)[i as int]);
                    assert forall|j: int| 0 <= j < len && j != i implies self@[j] == pre[j] by {
                        assert(self.rows@[j] == pre_rows[j]);
                    }
                }
                n = 1;
            } else {
                proof {
                    assert(self@[i as int] == old(self)@[i as int]);
                    assert(old(self)@[i as int].id != id as int);
                    assert(self@[i as int] == set_status(old(self)@, id as int, status)[i as int]);
                }
            }
            i = i + 1;
        }
        proof {
            assert(self@ =~= set_status(old(self)@, id as int, status));
            assert(forall|j: int|
                0 <= j < self@.len() ==> (#[trigger] self@[j]).id == old(self)@[j].id);
        }
        n
    }
}

} // verus!
