//! The `user` relation: its mathematical model, and an in-memory table that
//! behaves as the model says.
//!
//! Rows are kept in ascending order of their identifier, which is also the
//! order in which they were created: identifiers are handed out by a counter
//! that starts at 1 and never goes back, so a removed identifier is not used
//! again.

use vstd::prelude::*;
use crate::model::{Timestamp, User, UserRequest, UserRequestView, UserView};

verus! {

/// The largest identifier the `id` column can hold.
pub open spec fn max_id() -> int {
    u32::MAX as int
}

/// The relation as a mathematical value: its rows in ascending order of
/// identifier, and the identifier the next created row will get.
pub struct TableView {
    pub rows: Seq<UserView>,
    pub next_id: int,
}

/// The views of a sequence of rows, in the same order.
pub open spec fn row_views(rows: Seq<User>) -> Seq<UserView> {
    rows.map_values(|u: User| u@)
}

impl TableView {
    /// The relation before anything was created in it.
    pub open spec fn empty() -> TableView {
        TableView { rows: Seq::empty(), next_id: 1 }
    }

    /// Identifiers are unique, ascending, at least 1 and below the counter;
    /// the counter never passes the first value the column cannot hold.
    pub open spec fn wf(self) -> bool {
        &&& 1 <= self.next_id <= max_id() + 1
        &&& forall|i: int|
            0 <= i < self.rows.len() ==> 1 <= (#[trigger] self.rows[i]).id < self.next_id
        &&& forall|i: int, j: int|
            0 <= i < j < self.rows.len() ==> (#[trigger] self.rows[i]).id < (
            #[trigger] self.rows[j]).id
    }

    /// Whether a row with this identifier is present.
    pub open spec fn contains(self, id: int) -> bool {
        exists|i: int| 0 <= i < self.rows.len() && (#[trigger] self.rows[i]).id == id
    }

    /// Where the row with this identifier stands, if it is present.
    pub open spec fn position(self, id: int) -> int {
        choose|i: int| 0 <= i < self.rows.len() && (#[trigger] self.rows[i]).id == id
    }

    /// The row with this identifier, if it is present.
    pub open spec fn row(self, id: int) -> UserView {
        self.rows[self.position(id)]
    }

    /// How many rows a statement that addresses `id` touches: 1 if the row is
    /// present, 0 otherwise.
    pub open spec fn affected(self, id: int) -> int {
        if self.contains(id) {
            1
        } else {
            0
        }
    }

    /// Whether the identifier counter has run past what the column can hold,
    /// so that nothing more can be created.
    pub open spec fn full(self) -> bool {
        self.next_id > max_id()
    }

    /// The row that creating `req` at time `now` adds.
    pub open spec fn fresh_row(self, req: UserRequestView, now: int) -> UserView {
        UserView {
            id: self.next_id,
            name: req.name,
            mailadress: req.mailadress,
            password: req.password,
            created_at: now,
            updated_at: now,
            deleted_at: None,
        }
    }

    /// The relation after creating `req` at time `now`.
    pub open spec fn insert(self, req: UserRequestView, now: int) -> TableView {
        TableView { rows: self.rows.push(self.fresh_row(req, now)), next_id: self.next_id + 1 }
    }

    /// The relation after giving row `id` a new password at time `now`;
    /// unchanged if there is no such row.
    pub open spec fn set_password(self, id: int, password: Seq<char>, now: int) -> TableView {
        if self.contains(id) {
            TableView {
                rows: self.rows.update(
                    self.position(id),
                    UserView { password: password, updated_at: now, ..self.row(id) },
                ),
                next_id: self.next_id,
            }
        } else {
            self
        }
    }

    /// The relation after soft-deleting row `id` at time `now`; unchanged if
    /// there is no such row.
    pub open spec fn mark_deleted(self, id: int, now: int) -> TableView {
        if self.contains(id) {
            TableView {
                rows: self.rows.update(
                    self.position(id),
                    UserView { deleted_at: Some(now), ..self.row(id) },
                ),
                next_id: self.next_id,
            }
        } else {
            self
        }
    }

    /// The relation after physically removing row `id`; unchanged if there
    /// is no such row. The counter stays where it was.
    pub open spec fn remove(self, id: int) -> TableView {
        if self.contains(id) {
            TableView { rows: self.rows.remove(self.position(id)), next_id: self.next_id }
        } else {
            self
        }
    }
}

/// In a well-formed relation an identifier stands at one place only, so
/// finding it anywhere tells where `position` points.
pub proof fn lemma_position_unique(t: TableView, id: int, i: int)
    requires
        t.wf(),
        0 <= i < t.rows.len(),
        t.rows[i].id == id,
    ensures
        t.contains(id),
        t.position(id) == i,
        t.row(id) == t.rows[i],
{
    let j = t.position(id);
    assert(0 <= j < t.rows.len() && t.rows[j].id == id);
    if j < i {
        assert(t.rows[j].id < t.rows[i].id);
    } else if i < j {
        assert(t.rows[i].id < t.rows[j].id);
    }
}

/// Creating a row keeps the relation well-formed, as long as the counter
/// has not run out.
pub proof fn lemma_insert_wf(t: TableView, req: UserRequestView, now: int)
    requires
        t.wf(),
        !t.full(),
    ensures
        t.insert(req, now).wf(),
{
    let after = t.insert(req, now);
    assert forall|i: int, j: int| 0 <= i < j < after.rows.len() implies (
    #[trigger] after.rows[i]).id < (#[trigger] after.rows[j]).id by {
        assert(after.rows[i] == t.rows[i]);
        if j < t.rows.len() {
            assert(after.rows[j] == t.rows[j]);
        }
    }
}

/// Changing a password keeps the relation well-formed.
pub proof fn lemma_set_password_wf(t: TableView, id: int, password: Seq<char>, now: int)
    requires
        t.wf(),
    ensures
        t.set_password(id, password, now).wf(),
{
    let after = t.set_password(id, password, now);
    if t.contains(id) {
        assert forall|i: int, j: int| 0 <= i < j < after.rows.len() implies (
        #[trigger] after.rows[i]).id < (#[trigger] after.rows[j]).id by {
            assert(t.rows[i].id < t.rows[j].id);
        }
    }
}

/// Soft-deleting keeps the relation well-formed.
pub proof fn lemma_mark_deleted_wf(t: TableView, id: int, now: int)
    requires
        t.wf(),
    ensures
        t.mark_deleted(id, now).wf(),
{
    let after = t.mark_deleted(id, now);
    if t.contains(id) {
        assert forall|i: int, j: int| 0 <= i < j < after.rows.len() implies (
        #[trigger] after.rows[i]).id < (#[trigger] after.rows[j]).id by {
            assert(t.rows[i].id < t.rows[j].id);
        }
    }
}

/// Where each row of the relation stands once row `id` is removed: rows
/// before it keep their place, rows after it move one place down.
pub proof fn lemma_remove_rows(t: TableView, id: int)
    requires
        t.wf(),
        t.contains(id),
    ensures
        t.remove(id).rows.len() == t.rows.len() - 1,
        forall|k: int|
            0 <= k < t.position(id) ==> (#[trigger] t.remove(id).rows[k]) == t.rows[k],
        forall|k: int|
            t.position(id) <= k < t.rows.len() - 1 ==> (#[trigger] t.remove(id).rows[k])
                == t.rows[k + 1],
{
}

/// Removing a row keeps the relation well-formed.
pub proof fn lemma_remove_wf(t: TableView, id: int)
    requires
        t.wf(),
    ensures
        t.remove(id).wf(),
{
    let after = t.remove(id);
    if t.contains(id) {
        let p = t.position(id);
        lemma_remove_rows(t, id);
        assert forall|i: int| 0 <= i < after.rows.len() implies 1 <= (
        #[trigger] after.rows[i]).id < after.next_id by {
            if i < p {
                assert(after.rows[i] == t.rows[i]);
            } else {
                assert(after.rows[i] == t.rows[i + 1]);
            }
        }
        assert forall|i: int, j: int| 0 <= i < j < after.rows.len() implies (
        #[trigger] after.rows[i]).id < (#[trigger] after.rows[j]).id by {
            let oi = if i < p { i } else { i + 1 };
            let oj = if j < p { j } else { j + 1 };
            assert(after.rows[i] == t.rows[oi]);
            assert(after.rows[j] == t.rows[oj]);
            assert(t.rows[oi].id < t.rows[oj].id);
        }
    }
}

/// What the store reports after executing a statement that writes.
#[derive(Clone, Copy, Debug, PartialEq, Eq, Structural)]
pub struct ExecResult {
    /// How many rows the statement changed, added or removed.
    pub rows_affected: u64,
    /// The identifier given to the row an insert added; 0 for any other
    /// statement.
    pub last_insert_id: u64,
}

impl ExecResult {
    /// Whether the statement touched at least one row.
    pub fn any_affected(&self) -> (any: bool)
        ensures
            any == (self.rows_affected > 0),
    {
        self.rows_affected > 0
    }
}

/// An in-memory `user` relation.
pub struct UserTable {
    rows: Vec<User>,
    next_id: u64,
}

impl View for UserTable {
    type V = TableView;

    closed spec fn view(&self) -> TableView {
        TableView { rows: row_views(self.rows@), next_id: self.next_id as int }
    }
}

impl UserTable {
    /// Every table is well-formed, at all times.
    #[verifier::type_invariant]
    pub open spec fn valid(self) -> bool {
        self@.wf()
    }

    /// An empty relation whose first row will get identifier 1.
    pub fn new() -> (table: UserTable)
        ensures
            table@ == TableView::empty(),
            table@.wf(),
    {
        let table = UserTable { rows: Vec::new(), next_id: 1 };
        assert(table@.rows =~= Seq::<UserView>::empty());
        table
    }

    /// An empty relation whose first row will get identifier `first_id`, or
    /// 1 if `first_id` is 0.
    pub fn starting_at(first_id: u32) -> (table: UserTable)
        ensures
            table@ == (TableView {
                rows: Seq::empty(),
                next_id: if first_id == 0 {
                    1
                } else {
                    first_id as int
                },
            }),
            table@.wf(),
    {
        let next_id: u64 = if first_id == 0 {
            1
        } else {
            first_id as u64
        };
        let table = UserTable { rows: Vec::new(), next_id: next_id };
        assert(table@.rows =~= Seq::<UserView>::empty());
        table
    }

    /// The number of rows.
    pub fn len(&self) -> (n: usize)
        ensures
            n == self@.rows.len(),
            self@.wf(),
    {
        proof {
            use_type_invariant(self);
        }
        self.rows.len()
    }

    /// Finds the row with identifier `id` by bisection: the rows are in
    /// ascending order of identifier.
    fn locate(&self, id: u32) -> (found: Option<usize>)
        ensures
            self@.wf(),
            match found {
                Some(i) => {
                    &&& i < self.rows.len()
                    &&& self.rows[i as int].id == id
                    &&& self@.contains(id as int)
                    &&& self@.position(id as int) == i
                },
                None => !self@.contains(id as int),
            },
    {
        proof {
            use_type_invariant(self);
        }
        let mut lo: usize = 0;
        let mut hi: usize = self.rows.len();
        while lo < hi
            invariant
                lo <= hi <= self.rows.len(),
                self@.wf(),
                forall|i: int| 0 <= i < lo ==> (#[trigger] self@.rows[i]).id < id,
                forall|i: int| hi <= i < self.rows.len() ==> (#[trigger] self@.rows[i]).id > id,
            decreases hi - lo,
        {
            let mid: usize = lo + (hi - lo) / 2;
            let here: u32 = self.rows[mid].id;
            assert(self@.rows[mid as int].id == here);
            if here == id {
                proof {
                    lemma_position_unique(self@, id as int, mid as int);
                }
                return Some(mid);
            } else if here < id {
                lo = mid + 1;
            } else {
                hi = mid;
            }
        }
        None
    }

    /// Every row, in ascending order of identifier.
    pub fn select_all(&self) -> (rows: Vec<User>)
        ensures
            row_views(rows@) == self@.rows,
            self@.wf(),
    {
        proof {
            use_type_invariant(self);
        }
        let mut rows: Vec<User> = Vec::new();
        let mut i: usize = 0;
        while i < self.rows.len()
            invariant
                i <= self.rows.len(),
                rows@ == self.rows@.subrange(0, i as int),
            decreases self.rows.len() - i,
        {
            rows.push(self.rows[i].clone());
            i = i + 1;
            assert(rows@ =~= self.rows@.subrange(0, i as int));
        }
        assert(rows@ =~= self.rows@);
        rows
    }

    /// The row with identifier `id`, if there is one.
    pub fn select_by_id(&self, id: u32) -> (row: Option<User>)
        ensures
            self@.wf(),
            match row {
                Some(user) => self@.contains(id as int) && user@ == self@.row(id as int),
                None => !self@.contains(id as int),
            },
    {
        match self.locate(id) {
            Some(i) => Some(self.rows[i].clone()),
            None => None,
        }
    }

    /// Adds a row for `req`, created at `now`, under the next identifier.
    ///
    /// Returns `None`, and changes nothing, when the identifier counter has
    /// run past what the column can hold.
    pub fn insert(&mut self, req: &UserRequest, now: Timestamp) -> (done: Option<ExecResult>)
        ensures
            final(self)@.wf(),
            old(self)@.full() ==> done is None && final(self)@ == old(self)@,
            !old(self)@.full() ==> {
                &&& done == Some(
                    ExecResult { rows_affected: 1, last_insert_id: old(self)@.next_id as u64 },
                )
                &&& final(self)@ == old(self)@.insert(req@, now@)
            },
    {
        proof {
            use_type_invariant(&*self);
        }
        if self.next_id > u32::MAX as u64 {
            return None;
        }
        let id: u32 = self.next_id as u32;
        let row = User {
            id: id,
            name: req.name.clone(),
            mailadress: req.mailadress.clone(),
            password: req.password.clone(),
            created_at: now,
            updated_at: now,
            deleted_at: None,
        };
        self.next_id = self.next_id + 1;
        let mut rows: Vec<User> = Vec::new();
        std::mem::swap(&mut self.rows, &mut rows);
        rows.push(row);
        proof {
            lemma_insert_wf(old(self)@, req@, now@);
            assert(row_views(rows@) =~= old(self)@.insert(req@, now@).rows);
        }
        self.rows = rows;
        Some(ExecResult { rows_affected: 1, last_insert_id: id as u64 })
    }

    /// Gives row `id` the password `password` and sets its `updated_at` to
    /// `now`. Reports one affected row if the row exists, none otherwise.
    pub fn set_password(&mut self, id: u32, password: &String, now: Timestamp) -> (done:
        ExecResult)
        ensures
            final(self)@.wf(),
            final(self)@ == old(self)@.set_password(id as int, password@, now@),
            done == (ExecResult {
                rows_affected: old(self)@.affected(id as int) as u64,
                last_insert_id: 0,
            }),
    {
        match self.locate(id) {
            None => ExecResult { rows_affected: 0, last_insert_id: 0 },
            Some(i) => {
                let row = &self.rows[i];
                let changed = User {
                    id: row.id,
                    name: row.name.clone(),
                    mailadress: row.mailadress.clone(),
                    password: password.clone(),
                    created_at: row.created_at,
                    updated_at: now,
                    deleted_at: row.deleted_at,
                };
                let mut rows: Vec<User> = Vec::new();
                std::mem::swap(&mut self.rows, &mut rows);
                rows[i] = changed;
                proof {
                    lemma_set_password_wf(old(self)@, id as int, password@, now@);
                    assert(row_views(rows@) =~= old(self)@.set_password(
                        id as int,
                        password@,
                        now@,
                    ).rows);
                }
                self.rows = rows;
                ExecResult { rows_affected: 1, last_insert_id: 0 }
            },
        }
    }

    /// Sets the `deleted_at` of row `id` to `now`. Reports one affected row
    /// if the row exists, none otherwise.
    pub fn mark_deleted(&mut self, id: u32, now: Timestamp) -> (done: ExecResult)
        ensures
            final(self)@.wf(),
            final(self)@ == old(self)@.mark_deleted(id as int, now@),
            done == (ExecResult {
                rows_affected: old(self)@.affected(id as int) as u64,
                last_insert_id: 0,
            }),
    {
        match self.locate(id) {
            None => ExecResult { rows_affected: 0, last_insert_id: 0 },
            Some(i) => {
                let row = &self.rows[i];
                let changed = User {
                    id: row.id,
                    name: row.name.clone(),
                    mailadress: row.mailadress.clone(),
                    password: row.password.clone(),
                    created_at: row.created_at,
                    updated_at: row.updated_at,
                    deleted_at: Some(now),
                };
                let mut rows: Vec<User> = Vec::new();
                std::mem::swap(&mut self.rows, &mut rows);
                rows[i] = changed;
                proof {
                    lemma_mark_deleted_wf(old(self)@, id as int, now@);
                    assert(row_views(rows@) =~= old(self)@.mark_deleted(id as int, now@).rows);
                }
                self.rows = rows;
                ExecResult { rows_affected: 1, last_insert_id: 0 }
            },
        }
    }

    /// Removes row `id`. Reports one affected row if the row existed, none
    /// otherwise.
    pub fn remove(&mut self, id: u32) -> (done: ExecResult)
        ensures
            final(self)@.wf(),
            final(self)@ == old(self)@.remove(id as int),
            done == (ExecResult {
                rows_affected: old(self)@.affected(id as int) as u64,
                last_insert_id: 0,
            }),
    {
        match self.locate(id) {
            None => ExecResult { rows_affected: 0, last_insert_id: 0 },
            Some(i) => {
                let mut rows: Vec<User> = Vec::new();
                std::mem::swap(&mut self.rows, &mut rows);
                let _gone = rows.remove(i);
                proof {
                    lemma_remove_wf(old(self)@, id as int);
                    assert(row_views(rows@) =~= old(self)@.remove(id as int).rows);
                }
                self.rows = rows;
                ExecResult { rows_affected: 1, last_insert_id: 0 }
            },
        }
    }
}

} // verus!
