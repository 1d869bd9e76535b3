//! What holds of the data-access operations taken together, stated over the
//! model of the relation and proved once and for all.

use vstd::prelude::*;
use crate::model::{UserRequestView, UserView};
use crate::table::{lemma_position_unique, lemma_remove_rows, TableView};

verus! {

/// A user that was just created can be found under the identifier that was
/// returned, with exactly the fields that were supplied, with `created_at`
/// equal to `updated_at`, and not deleted.
pub proof fn law_created_user_is_found(t: TableView, req: UserRequestView, now: int)
    requires
        t.wf(),
        !t.full(),
    ensures
        t.insert(req, now).wf(),
        t.insert(req, now).contains(t.next_id),
        t.insert(req, now).row(t.next_id) == (UserView {
            id: t.next_id,
            name: req.name,
            mailadress: req.mailadress,
            password: req.password,
            created_at: now,
            updated_at: now,
            deleted_at: None,
        }),
        t.insert(req, now).row(t.next_id).created_at == t.insert(req, now).row(
            t.next_id,
        ).updated_at,
        !t.contains(t.next_id),
{
    let after = t.insert(req, now);
    crate::table::lemma_insert_wf(t, req, now);
    assert(after.rows[t.rows.len() as int] == t.fresh_row(req, now));
    lemma_position_unique(after, t.next_id, t.rows.len() as int);
}

/// Creating a user leaves every other user as it was.
pub proof fn law_create_keeps_others(t: TableView, req: UserRequestView, now: int, other: int)
    requires
        t.wf(),
        !t.full(),
        other != t.next_id,
    ensures
        t.insert(req, now).contains(other) == t.contains(other),
        t.contains(other) ==> t.insert(req, now).row(other) == t.row(other),
{
    let after = t.insert(req, now);
    crate::table::lemma_insert_wf(t, req, now);
    if t.contains(other) {
        let p = t.position(other);
        assert(after.rows[p] == t.rows[p]);
        lemma_position_unique(after, other, p);
    }
    if after.contains(other) {
        let q = after.position(other);
        assert(q < t.rows.len());
        assert(after.rows[q] == t.rows[q]);
    }
}

/// An update changes the password and sets `updated_at` to the time of the
/// update; the identifier, the name, the mail address, `created_at` and
/// `deleted_at` stay as they were. A user that did not exist still does not,
/// and the relation is unchanged.
pub proof fn law_update_changes_password_only(
    t: TableView,
    id: int,
    password: Seq<char>,
    now: int,
)
    requires
        t.wf(),
    ensures
        t.set_password(id, password, now).wf(),
        t.set_password(id, password, now).contains(id) == t.contains(id),
        t.contains(id) ==> t.set_password(id, password, now).row(id) == (UserView {
            password: password,
            updated_at: now,
            ..t.row(id)
        }),
        t.contains(id) ==> t.set_password(id, password, now).row(id).created_at == t.row(
            id,
        ).created_at,
        !t.contains(id) ==> t.set_password(id, password, now) == t,
{
    let after = t.set_password(id, password, now);
    crate::table::lemma_set_password_wf(t, id, password, now);
    if t.contains(id) {
        let p = t.position(id);
        lemma_position_unique(t, id, p);
        assert(after.rows[p].id == id);
        lemma_position_unique(after, id, p);
    }
}

/// An update made later than the last change moves `updated_at` forward.
pub proof fn law_update_advances_updated_at(
    t: TableView,
    id: int,
    password: Seq<char>,
    now: int,
)
    requires
        t.wf(),
        t.contains(id),
        t.row(id).updated_at < now,
    ensures
        t.row(id).updated_at < t.set_password(id, password, now).row(id).updated_at,
{
    law_update_changes_password_only(t, id, password, now);
}

/// An update of one user leaves every other user as it was.
pub proof fn law_update_keeps_others(
    t: TableView,
    id: int,
    password: Seq<char>,
    now: int,
    other: int,
)
    requires
        t.wf(),
        other != id,
    ensures
        t.set_password(id, password, now).contains(other) == t.contains(other),
        t.contains(other) ==> t.set_password(id, password, now).row(other) == t.row(other),
{
    let after = t.set_password(id, password, now);
    crate::table::lemma_set_password_wf(t, id, password, now);
    if t.contains(id) {
        if t.contains(other) {
            let q = t.position(other);
            assert(after.rows[q] == t.rows[q]);
            lemma_position_unique(after, other, q);
        }
        if after.contains(other) {
            let q = after.position(other);
            assert(q != t.position(id));
            assert(after.rows[q] == t.rows[q]);
        }
    }
}

/// A soft delete sets `deleted_at` to the time of the deletion and changes
/// nothing else: the user remains in the relation and can still be found.
/// A user that did not exist still does not, and the relation is unchanged.
pub proof fn law_soft_delete_keeps_row(t: TableView, id: int, now: int)
    requires
        t.wf(),
    ensures
        t.mark_deleted(id, now).wf(),
        t.mark_deleted(id, now).contains(id) == t.contains(id),
        t.contains(id) ==> t.mark_deleted(id, now).row(id) == (UserView {
            deleted_at: Some(now),
            ..t.row(id)
        }),
        !t.contains(id) ==> t.mark_deleted(id, now) == t,
{
    let after = t.mark_deleted(id, now);
    crate::table::lemma_mark_deleted_wf(t, id, now);
    if t.contains(id) {
        let p = t.position(id);
        lemma_position_unique(t, id, p);
        assert(after.rows[p].id == id);
        lemma_position_unique(after, id, p);
    }
}

/// A soft delete of one user leaves every other user as it was.
pub proof fn law_soft_delete_keeps_others(t: TableView, id: int, now: int, other: int)
    requires
        t.wf(),
        other != id,
    ensures
        t.mark_deleted(id, now).contains(other) == t.contains(other),
        t.contains(other) ==> t.mark_deleted(id, now).row(other) == t.row(other),
{
    let after = t.mark_deleted(id, now);
    crate::table::lemma_mark_deleted_wf(t, id, now);
    if t.contains(id) {
        if t.contains(other) {
            let q = t.position(other);
            assert(after.rows[q] == t.rows[q]);
            lemma_position_unique(after, other, q);
        }
        if after.contains(other) {
            let q = after.position(other);
            assert(q != t.position(id));
            assert(after.rows[q] == t.rows[q]);
        }
    }
}

/// A hard delete removes the user: it cannot be found afterwards. The number
/// of rows removed is 1 if the user existed and 0 if not, and the relation
/// shrinks by exactly that number.
pub proof fn law_hard_delete_removes_row(t: TableView, id: int)
    requires
        t.wf(),
    ensures
        t.remove(id).wf(),
        !t.remove(id).contains(id),
        t.affected(id) == 0 || t.affected(id) == 1,
        t.affected(id) == 1 <==> t.contains(id),
        t.remove(id).rows.len() == t.rows.len() - t.affected(id),
        !t.contains(id) ==> t.remove(id) == t,
{
    let after = t.remove(id);
    crate::table::lemma_remove_wf(t, id);
    if t.contains(id) {
        let p = t.position(id);
        lemma_remove_rows(t, id);
        if after.contains(id) {
            let q = after.position(id);
            if q < p {
                assert(after.rows[q] == t.rows[q]);
                lemma_position_unique(t, id, q);
            } else {
                assert(after.rows[q] == t.rows[q + 1]);
                lemma_position_unique(t, id, q + 1);
            }
        }
    }
}

/// A hard delete of one user leaves every other user as it was.
pub proof fn law_hard_delete_keeps_others(t: TableView, id: int, other: int)
    requires
        t.wf(),
        other != id,
    ensures
        t.remove(id).contains(other) == t.contains(other),
        t.contains(other) ==> t.remove(id).row(other) == t.row(other),
{
    let after = t.remove(id);
    crate::table::lemma_remove_wf(t, id);
    if t.contains(id) {
        let p = t.position(id);
        lemma_remove_rows(t, id);
        if t.contains(other) {
            let q = t.position(other);
            if q < p {
                assert(after.rows[q] == t.rows[q]);
                lemma_position_unique(after, other, q);
            } else {
                assert(after.rows[q - 1] == t.rows[q]);
                lemma_position_unique(after, other, q - 1);
            }
        }
        if after.contains(other) {
            let q = after.position(other);
            if q < p {
                assert(after.rows[q] == t.rows[q]);
            } else {
                assert(after.rows[q] == t.rows[q + 1]);
            }
        }
    }
}

/// An empty relation is well-formed, lists no user and contains none.
pub proof fn law_empty_table_lists_nothing(id: int)
    ensures
        TableView::empty().wf(),
        TableView::empty().rows.len() == 0,
        !TableView::empty().contains(id),
{
}

} // verus!
