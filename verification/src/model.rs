//! The records of the `user` relation and the inputs that create and change
//! them, each with the mathematical view its contracts are stated over.

use vstd::prelude::*;
use crate::error::{id_exhausted_text, Error};
use crate::table::{row_views, UserTable};

verus! {

/// A point in time: microseconds since the Unix epoch, UTC. This is the
/// resolution at which the store keeps `created_at`, `updated_at` and
/// `deleted_at`.
#[derive(Clone, Copy, Debug, PartialEq, Eq, Structural)]
pub struct Timestamp {
    pub micros: i64,
}

impl View for Timestamp {
    type V = int;

    open spec fn view(&self) -> int {
        self.micros as int
    }
}

/// Creation input. No field is validated: empty strings are accepted.
#[derive(Debug, PartialEq, Eq)]
pub struct UserRequest {
    pub name: String,
    pub mailadress: String,
    pub password: String,
}

/// What a [`UserRequest`] says, as sequences of characters.
pub struct UserRequestView {
    pub name: Seq<char>,
    pub mailadress: Seq<char>,
    pub password: Seq<char>,
}

impl View for UserRequest {
    type V = UserRequestView;

    open spec fn view(&self) -> UserRequestView {
        UserRequestView {
            name: self.name@,
            mailadress: self.mailadress@,
            password: self.password@,
        }
    }
}

impl Clone for UserRequest {
    fn clone(&self) -> (res: Self)
        ensures
            res == *self,
    {
        UserRequest {
            name: self.name.clone(),
            mailadress: self.mailadress.clone(),
            password: self.password.clone(),
        }
    }
}

/// Update input: the new password, stored as given.
#[derive(Debug, PartialEq, Eq)]
pub struct UpdateRequest {
    pub password: String,
}

/// What an [`UpdateRequest`] says.
pub struct UpdateRequestView {
    pub password: Seq<char>,
}

impl View for UpdateRequest {
    type V = UpdateRequestView;

    open spec fn view(&self) -> UpdateRequestView {
        UpdateRequestView { password: self.password@ }
    }
}

impl Clone for UpdateRequest {
    fn clone(&self) -> (res: Self)
        ensures
            res == *self,
    {
        UpdateRequest { password: self.password.clone() }
    }
}

/// One row of the `user` relation.
#[derive(Debug, PartialEq, Eq)]
pub struct User {
    pub id: u32,
    pub name: String,
    pub mailadress: String,
    pub password: String,
    pub created_at: Timestamp,
    pub updated_at: Timestamp,
    /// Present exactly when the row has been soft-deleted.
    pub deleted_at: Option<Timestamp>,
}

/// A row as a mathematical value: the identifier and the timestamps as
/// integers, the text columns as sequences of characters.
pub struct UserView {
    pub id: int,
    pub name: Seq<char>,
    pub mailadress: Seq<char>,
    pub password: Seq<char>,
    pub created_at: int,
    pub updated_at: int,
    pub deleted_at: Option<int>,
}

impl View for User {
    type V = UserView;

    open spec fn view(&self) -> UserView {
        UserView {
            id: self.id as int,
            name: self.name@,
            mailadress: self.mailadress@,
            password: self.password@,
            created_at: self.created_at@,
            updated_at: self.updated_at@,
            deleted_at: match self.deleted_at {
                Some(t) => Some(t@),
                None => None,
            },
        }
    }
}

impl Clone for User {
    fn clone(&self) -> (res: Self)
        ensures
            res == *self,
    {
        User {
            id: self.id,
            name: self.name.clone(),
            mailadress: self.mailadress.clone(),
            password: self.password.clone(),
            created_at: self.created_at,
            updated_at: self.updated_at,
            deleted_at: self.deleted_at,
        }
    }
}

/// The data-access operations. Each runs as one transaction against the
/// relation: it either takes effect as a whole or leaves the relation as it
/// was.
impl User {
    /// Every user, in ascending order of identifier. Never fails; an empty
    /// relation yields an empty list.
    pub fn find_all(table: &UserTable) -> (found: Result<Vec<User>, Error>)
        ensures
            found matches Ok(users) && row_views(users@) == table@.rows,
    {
        Ok(table.select_all())
    }

    /// The user with identifier `id`, or `NotFound` if there is none.
    pub fn find_by_id(id: i32, table: &UserTable) -> (found: Result<User, Error>)
        ensures
            match found {
                Ok(user) => table@.contains(id as int) && user@ == table@.row(id as int),
                Err(e) => !table@.contains(id as int) && e == Error::NotFound,
            },
    {
        proof {
            use_type_invariant(table);
        }
        if id < 0 {
            return Err(Error::NotFound);
        }
        match table.select_by_id(id as u32) {
            Some(user) => Ok(user),
            None => Err(Error::NotFound),
        }
    }

    /// Creates a user from `user` at time `now` and returns the identifier
    /// the relation gave it. Both `created_at` and `updated_at` are `now`.
    ///
    /// Fails, leaving the relation unchanged, exactly when the identifier
    /// column is exhausted.
    pub fn create(user: UserRequest, now: Timestamp, table: &mut UserTable) -> (made: Result<
        u64,
        Error,
    >)
        ensures
            final(table)@.wf(),
            !old(table)@.full() ==> {
                &&& made == Ok::<u64, Error>(old(table)@.next_id as u64)
                &&& final(table)@ == old(table)@.insert(user@, now@)
            },
            old(table)@.full() ==> {
                &&& made matches Err(Error::Sqlx(text)) && text@ == id_exhausted_text()
                &&& final(table)@ == old(table)@
            },
    {
        match table.insert(&user, now) {
            Some(done) => Ok(done.last_insert_id),
            None => Err(Error::id_exhausted()),
        }
    }

    /// Replaces the password of user `id` and sets its `updated_at` to
    /// `now`. Returns whether the user existed; if it did not, nothing
    /// changes and no error is raised.
    pub fn update(id: u32, user: UpdateRequest, now: Timestamp, table: &mut UserTable) -> (changed:
        Result<bool, Error>)
        ensures
            final(table)@.wf(),
            changed == Ok::<bool, Error>(old(table)@.contains(id as int)),
            final(table)@ == old(table)@.set_password(id as int, user@.password, now@),
    {
        let done = table.set_password(id, &user.password, now);
        Ok(done.any_affected())
    }

    /// Soft-deletes user `id`: sets its `deleted_at` to `now` and leaves the
    /// row in place. Returns whether the user existed.
    pub fn delete_put(id: u32, now: Timestamp, table: &mut UserTable) -> (changed: Result<
        bool,
        Error,
    >)
        ensures
            final(table)@.wf(),
            changed == Ok::<bool, Error>(old(table)@.contains(id as int)),
            final(table)@ == old(table)@.mark_deleted(id as int, now@),
    {
        let done = table.mark_deleted(id, now);
        Ok(done.any_affected())
    }

    /// Hard-deletes user `id`: removes its row. Returns the number of rows
    /// removed, 1 if the user existed and 0 if not.
    pub fn delete(id: u32, table: &mut UserTable) -> (removed: Result<u64, Error>)
        ensures
            final(table)@.wf(),
            removed == Ok::<u64, Error>(old(table)@.affected(id as int) as u64),
            final(table)@ == old(table)@.remove(id as int),
    {
        let done = table.remove(id);
        Ok(done.rows_affected)
    }
}

} // verus!
