//! The responses of the user service: for each route, what is answered to
//! each outcome of the data-access operation behind it.
//!
//! | Route                         | Operation         | Success                | Failure |
//! |-------------------------------|-------------------|------------------------|---------|
//! | `GET /`                       | none              | 200, the routes        | none    |
//! | `GET /users`                  | `User::find_all`  | 200, the list          | 500     |
//! | `GET /user/{id}`              | `User::find_by_id`| 200, the record        | 500     |
//! | `POST /create`                | `User::create`    | 200, the identifier    | 400     |
//! | `PUT /update/{id}`            | `User::update`    | 200, whether it existed| 400     |
//! | `PUT /delete/{id}`            | `User::delete_put`| 200, whether it existed| 400     |
//! | `DELETE /delete/physics/{id}` | `User::delete`    | 200 if a row was removed, else 400 | 400 |
//! | `GET /alive`                  | round-trip probe  | 200 `OK`, or 408 `NG`  | 500     |

use vstd::prelude::*;
use crate::error::{undated_text, Error};
use crate::http::{Response, ResponseView, BAD_REQUEST, OK, REQUEST_TIMEOUT};
use crate::model::User;
use crate::render::{user_debug_text, users_debug_text};
use crate::table::row_views;
use crate::text::{decimal, decimal_text};

verus! {

/// The value the liveness probe sends to the store and expects back.
pub const PROBE_VALUE: i16 = 150;

/// A truth value as JSON text.
pub open spec fn bool_text(b: bool) -> Seq<char> {
    if b {
        "true"@
    } else {
        "false"@
    }
}

/// The text answered to `GET /`: the routes of the service.
pub open spec fn index_text() -> Seq<char> {
    "GET /users -> list of all users\nGET /user/{id} -> show the user with the requested id\nPOST /create -> create a new user, example: { \"name\": \"a\", \"mailadress\": \"a@x.com\", \"password\": \"p\" }\nPUT /update/{id} -> set the password of the user with the requested id, example: { \"password\": \"p2\" }\nPUT /delete/{id} -> mark the user with the requested id as deleted\nDELETE /delete/physics/{id} -> remove the user with the requested id\nGET /alive -> check that the store answers\n"@
}

/// The answer that shows a successful result: 200 with the result's debug
/// notation. A result that has none, because a timestamp in it is an
/// instant for which there is no date-time, is answered as the store's
/// failure to read it.
pub open spec fn shown_response(result_text: Option<Seq<char>>) -> ResponseView {
    match result_text {
        Some(text) => ResponseView::plain(OK as int, "Ok("@ + text + ")"@),
        None => ResponseView::failure_text("Sqlx: "@ + undated_text()),
    }
}

/// The answer to `GET /users`.
pub open spec fn users_response(found: Result<Vec<User>, Error>) -> ResponseView {
    match found {
        Ok(users) => shown_response(users_debug_text(row_views(users@))),
        Err(e) => ResponseView::failure(e),
    }
}

/// The answer to `GET /user/{id}`. A missing user is a failure like any
/// other: there is no 404.
pub open spec fn user_response(found: Result<User, Error>) -> ResponseView {
    match found {
        Ok(user) => shown_response(user_debug_text(user@)),
        Err(e) => ResponseView::failure(e),
    }
}

/// The answer to `POST /create`.
pub open spec fn create_response(made: Result<u64, Error>) -> ResponseView {
    match made {
        Ok(id) => ResponseView::plain(OK as int, decimal_text(id as nat)).with_header(
            "content-type"@,
            "application/javascript"@,
        ),
        Err(e) => ResponseView::plain(BAD_REQUEST as int, e.message_text()),
    }
}

/// The answer to `PUT /update/{id}` and to `PUT /delete/{id}`.
pub open spec fn change_response(changed: Result<bool, Error>) -> ResponseView {
    match changed {
        Ok(existed) => ResponseView::plain(OK as int, bool_text(existed)).with_header(
            "content-type"@,
            "application/json"@,
        ),
        Err(e) => ResponseView::plain(BAD_REQUEST as int, "err:"@ + e.message_text()),
    }
}

/// The answer to `DELETE /delete/physics/{id}`.
pub open spec fn delete_response(removed: Result<u64, Error>) -> ResponseView {
    match removed {
        Ok(rows) => if rows > 0 {
            ResponseView::plain(
                OK as int,
                "Successfully deleted id:"@ + decimal_text(rows as nat) + " record(s)"@,
            )
        } else {
            ResponseView::plain(BAD_REQUEST as int, "User not found"@)
        },
        Err(_) => ResponseView::plain(BAD_REQUEST as int, "User not found"@),
    }
}

/// The answer to `GET /alive`, given what the store sent back for the probe.
pub open spec fn alive_response(echoed: Result<i16, Error>) -> ResponseView {
    match echoed {
        Ok(value) => if value == PROBE_VALUE {
            ResponseView::plain(OK as int, "OK"@)
        } else {
            ResponseView::plain(REQUEST_TIMEOUT as int, "NG"@)
        },
        Err(e) => ResponseView::failure(e),
    }
}

/// Answers `GET /`: 200 with the routes of the service.
pub fn index() -> (r: Response)
    ensures
        r@ == ResponseView::plain(OK as int, index_text()),
{
    Response::plain(
        OK,
        String::from_str(
            "GET /users -> list of all users\nGET /user/{id} -> show the user with the requested id\nPOST /create -> create a new user, example: { \"name\": \"a\", \"mailadress\": \"a@x.com\", \"password\": \"p\" }\nPUT /update/{id} -> set the password of the user with the requested id, example: { \"password\": \"p2\" }\nPUT /delete/{id} -> mark the user with the requested id as deleted\nDELETE /delete/physics/{id} -> remove the user with the requested id\nGET /alive -> check that the store answers\n",
        ),
    )
}

/// Shows a successful result, given its debug notation if it has one.
fn shown(result_text: Option<String>) -> (r: Response)
    ensures
        r@ == shown_response(
            match result_text {
                Some(t) => Some(t@),
                None => None,
            },
        ),
{
    match result_text {
        Some(text) => Response::plain(
            OK,
            String::from_str("Ok(").concat(text.as_str()).concat(")"),
        ),
        None => Response::failure(&Error::undated()),
    }
}

/// Answers `GET /users`: 200 with the list of users in debug notation, or
/// 500 with the failure's message.
pub fn users(found: Result<Vec<User>, Error>) -> (r: Response)
    ensures
        r@ == users_response(found),
{
    match found {
        Ok(users) => shown(User::list_debug_text(&users)),
        Err(e) => Response::failure(&e),
    }
}

/// Answers `GET /user/{id}`: 200 with the user in debug notation, or 500
/// with the failure's message.
pub fn user(found: Result<User, Error>) -> (r: Response)
    ensures
        r@ == user_response(found),
{
    match found {
        Ok(user) => shown(user.debug_text()),
        Err(e) => Response::failure(&e),
    }
}

/// Answers `POST /create`: 200 with the new identifier as JSON, or 400 with
/// the failure's message.
pub fn create(made: Result<u64, Error>) -> (r: Response)
    ensures
        r@ == create_response(made),
{
    match made {
        Ok(id) => Response::plain(OK, decimal(id)).with_header(
            "content-type",
            "application/javascript",
        ),
        Err(e) => Response::plain(BAD_REQUEST, e.message()),
    }
}

/// The answer shared by the two routes that report whether a user existed.
fn change(changed: Result<bool, Error>) -> (r: Response)
    ensures
        r@ == change_response(changed),
{
    match changed {
        Ok(existed) => {
            let body = if existed {
                String::from_str("true")
            } else {
                String::from_str("false")
            };
            Response::plain(OK, body).with_header("content-type", "application/json")
        },
        Err(e) => Response::plain(
            BAD_REQUEST,
            String::from_str("err:").concat(e.message().as_str()),
        ),
    }
}

/// Answers `PUT /update/{id}`: 200 with `true` or `false` as JSON, or 400
/// with `err:` and the failure's message.
pub fn update(changed: Result<bool, Error>) -> (r: Response)
    ensures
        r@ == change_response(changed),
{
    change(changed)
}

/// Answers `PUT /delete/{id}`: 200 with `true` or `false` as JSON, or 400
/// with `err:` and the failure's message.
pub fn delete_put(changed: Result<bool, Error>) -> (r: Response)
    ensures
        r@ == change_response(changed),
{
    change(changed)
}

/// Answers `DELETE /delete/physics/{id}`: 200 with the number of rows
/// removed if there was one, 400 if there was none or the removal failed.
pub fn delete(removed: Result<u64, Error>) -> (r: Response)
    ensures
        r@ == delete_response(removed),
{
    match removed {
        Ok(rows) => {
            if rows > 0 {
                let body = String::from_str("Successfully deleted id:").concat(
                    decimal(rows).as_str(),
                ).concat(" record(s)");
                Response::plain(OK, body)
            } else {
                Response::plain(BAD_REQUEST, String::from_str("User not found"))
            }
        },
        Err(_) => Response::plain(BAD_REQUEST, String::from_str("User not found")),
    }
}

/// Answers `GET /alive`: 200 `OK` when the store echoed the probe value,
/// 408 `NG` when it echoed anything else, 500 when the probe failed.
pub fn alive(echoed: Result<i16, Error>) -> (r: Response)
    ensures
        r@ == alive_response(echoed),
{
    match echoed {
        Ok(value) => {
            if value == PROBE_VALUE {
                Response::plain(OK, String::from_str("OK"))
            } else {
                Response::plain(REQUEST_TIMEOUT, String::from_str("NG"))
            }
        },
        Err(e) => Response::failure(&e),
    }
}

} // verus!
