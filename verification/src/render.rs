//! Records as text, in the form the service shows them: the debug notation
//! of a record whose text columns are quoted strings and whose timestamps
//! are UTC date-times.
//!
//! Quoting a string and writing a date-time are left to the standard library
//! and to `chrono`; what those produce is named here, not described. The
//! rest, how the parts of a record and the records of a list are put
//! together, is stated and proved.

use vstd::prelude::*;
use crate::model::{User, UserView};
use crate::text::{decimal, decimal_text};

verus! {

/// The debug notation of a string: what `format!("{:?}", s)` yields for the
/// string `s`.
pub uninterp spec fn str_debug_text(s: Seq<char>) -> Seq<char>;

/// The debug notation of the UTC date-time that lies `micros` microseconds
/// after the Unix epoch, as `chrono` writes it; `None` where `chrono` has no
/// date-time for that instant.
pub uninterp spec fn utc_debug_text(micros: int) -> Option<Seq<char>>;

/// Quotes a string in debug notation.
///
/// Wraps the standard library's `Debug` formatting of `str`. The contract
/// claims only that the text is a function of the string's characters.
#[verifier::external_body]
fn str_debug(s: &str) -> (text: String)
    ensures
        text@ == str_debug_text(s@),
{
    format!("{:?}", s)
}

/// Writes the UTC date-time of an instant in debug notation.
///
/// Wraps `chrono::DateTime::<Utc>::from_timestamp_micros` and the `Debug`
/// formatting of the date-time it returns. The contract claims only that
/// whether there is a date-time, and its text, are a function of the number
/// of microseconds.
#[verifier::external_body]
fn utc_debug(micros: i64) -> (text: Option<String>)
    ensures
        match text {
            Some(t) => utc_debug_text(micros as int) == Some(t@),
            None => utc_debug_text(micros as int) is None,
        },
{
    match chrono::DateTime::<chrono::Utc>::from_timestamp_micros(micros) {
        Some(t) => Some(format!("{:?}", t)),
        None => None,
    }
}

/// The debug notation of an optional part, given the text of the part.
pub open spec fn optional_text(part: Option<Seq<char>>) -> Seq<char> {
    match part {
        Some(t) => "Some("@ + t + ")"@,
        None => "None"@,
    }
}

/// The debug notation of a record, given the text of each of its fields.
pub open spec fn record_text(
    id: Seq<char>,
    name: Seq<char>,
    mailadress: Seq<char>,
    password: Seq<char>,
    created_at: Seq<char>,
    updated_at: Seq<char>,
    deleted_at: Seq<char>,
) -> Seq<char> {
    "User { id: "@ + id + ", name: "@ + name + ", mailadress: "@ + mailadress + ", password: "@
        + password + ", created_at: "@ + created_at + ", updated_at: "@ + updated_at
        + ", deleted_at: "@ + deleted_at + " }"@
}

/// The items, separated by a comma and a space.
pub open spec fn joined(items: Seq<Seq<char>>) -> Seq<char>
    decreases items.len(),
{
    if items.len() == 0 {
        Seq::empty()
    } else if items.len() == 1 {
        items[0]
    } else {
        joined(items.drop_last()) + ", "@ + items.last()
    }
}

/// The debug notation of a list, given the text of each of its items.
pub open spec fn list_text(items: Seq<Seq<char>>) -> Seq<char> {
    "["@ + joined(items) + "]"@
}

/// The debug notation of a user, or `None` if one of its timestamps is an
/// instant for which there is no date-time.
pub open spec fn user_debug_text(u: UserView) -> Option<Seq<char>> {
    let created = utc_debug_text(u.created_at);
    let updated = utc_debug_text(u.updated_at);
    let deleted = match u.deleted_at {
        Some(d) => utc_debug_text(d),
        None => None,
    };
    if created is Some && updated is Some && (u.deleted_at is Some ==> deleted is Some) {
        Some(
            record_text(
                decimal_text(u.id as nat),
                str_debug_text(u.name),
                str_debug_text(u.mailadress),
                str_debug_text(u.password),
                created->0,
                updated->0,
                optional_text(deleted),
            ),
        )
    } else {
        None
    }
}

/// The debug notation of a list of users, or `None` if one of them has
/// none.
pub open spec fn users_debug_text(users: Seq<UserView>) -> Option<Seq<char>> {
    if forall|i: int| 0 <= i < users.len() ==> user_debug_text(#[trigger] users[i]) is Some {
        Some(list_text(users.map_values(|u: UserView| user_debug_text(u)->0)))
    } else {
        None
    }
}

/// The texts of a sequence of strings, in the same order.
pub open spec fn texts(items: Seq<String>) -> Seq<Seq<char>> {
    items.map_values(|s: String| s@)
}

/// Puts the fields of a record together, each already written as text but
/// for the identifier, which is written in base 10, and for the optional
/// `deleted_at`, which is wrapped as an optional part.
pub fn compose_record(
    id: u32,
    name: &str,
    mailadress: &str,
    password: &str,
    created_at: &str,
    updated_at: &str,
    deleted_at: Option<&str>,
) -> (text: String)
    ensures
        text@ == record_text(
            decimal_text(id as nat),
            name@,
            mailadress@,
            password@,
            created_at@,
            updated_at@,
            optional_text(
                match deleted_at {
                    Some(d) => Some(d@),
                    None => None,
                },
            ),
        ),
{
    let text = String::from_str("User { id: ").concat(decimal(id as u64).as_str()).concat(
        ", name: ",
    ).concat(name).concat(", mailadress: ").concat(mailadress).concat(", password: ").concat(
        password,
    ).concat(", created_at: ").concat(created_at).concat(", updated_at: ").concat(
        updated_at,
    ).concat(", deleted_at: ");
    let text = match deleted_at {
        Some(d) => text.concat("Some(").concat(d).concat(")"),
        None => text.concat("None"),
    };
    text.concat(" }")
}

/// Puts the items of a list together: in square brackets, separated by a
/// comma and a space.
pub fn compose_list(items: &Vec<String>) -> (text: String)
    ensures
        text@ == list_text(texts(items@)),
{
    let mut inner = String::new();
    let mut i: usize = 0;
    while i < items.len()
        invariant
            i <= items.len(),
            inner@ == joined(texts(items@).subrange(0, i as int)),
        decreases items.len() - i,
    {
        let ghost before = texts(items@).subrange(0, i as int);
        let ghost after = texts(items@).subrange(0, i + 1);
        proof {
            assert(after.drop_last() =~= before);
            assert(after.last() == items@[i as int]@);
        }
        if i > 0 {
            inner.append(", ");
        }
        inner.append(items[i].as_str());
        proof {
            if i == 0 {
                assert(inner@ =~= after[0]);
            }
        }
        i = i + 1;
    }
    assert(texts(items@).subrange(0, i as int) =~= texts(items@));
    String::from_str("[").concat(inner.as_str()).concat("]")
}

impl User {
    /// This user in debug notation, or `None` if one of its timestamps is an
    /// instant for which there is no date-time.
    pub fn debug_text(&self) -> (text: Option<String>)
        ensures
            match text {
                Some(t) => user_debug_text(self@) == Some(t@),
                None => user_debug_text(self@) is None,
            },
    {
        let created = match utc_debug(self.created_at.micros) {
            Some(t) => t,
            None => {
                return None;
            },
        };
        let updated = match utc_debug(self.updated_at.micros) {
            Some(t) => t,
            None => {
                return None;
            },
        };
        let deleted: Option<String> = match self.deleted_at {
            Some(d) => match utc_debug(d.micros) {
                Some(t) => Some(t),
                None => {
                    return None;
                },
            },
            None => None,
        };
        let name = str_debug(self.name.as_str());
        let mailadress = str_debug(self.mailadress.as_str());
        let password = str_debug(self.password.as_str());
        let text = compose_record(
            self.id,
            name.as_str(),
            mailadress.as_str(),
            password.as_str(),
            created.as_str(),
            updated.as_str(),
            match &deleted {
                Some(d) => Some(d.as_str()),
                None => None,
            },
        );
        Some(text)
    }

    /// These users as a list in debug notation, or `None` if one of them
    /// has no debug notation.
    pub fn list_debug_text(users: &Vec<User>) -> (text: Option<String>)
        ensures
            match text {
                Some(t) => users_debug_text(crate::table::row_views(users@)) == Some(t@),
                None => users_debug_text(crate::table::row_views(users@)) is None,
            },
    {
        let ghost views = crate::table::row_views(users@);
        let mut items: Vec<String> = Vec::new();
        let mut i: usize = 0;
        while i < users.len()
            invariant
                i <= users.len(),
                views == crate::table::row_views(users@),
                items@.len() == i,
                forall|k: int|
                    0 <= k < i ==> user_debug_text(#[trigger] views[k]) == Some(items@[k]@),
            decreases users.len() - i,
        {
            match users[i].debug_text() {
                Some(t) => {
                    items.push(t);
                },
                None => {
                    assert(user_debug_text(views[i as int]) is None);
                    return None;
                },
            }
            i = i + 1;
        }
        assert(texts(items@) =~= views.map_values(|u: UserView| user_debug_text(u)->0));
        Some(compose_list(&items))
    }
}

} // verus!
