//! The key-value service: the commands it sends to the key-value store and
//! the responses it makes of the store's replies.
//!
//! | Route          | Command               | Success                  | Failure |
//! |----------------|-----------------------|--------------------------|---------|
//! | `GET /get`     | `GET id`              | 200, the value as HTML   | 500     |
//! | `GET /set`     | `SET id "set id"`     | 200 `OK`                 | 500     |
//! | `GET /watcher` | `PING`                | 200 `OK`                 | 500     |

use vstd::prelude::*;
use crate::error::Error;
use crate::http::{Response, ResponseView, OK};

verus! {

/// The query of a request to the key-value service: the key, and a text to
/// show beside the value.
#[derive(Debug, PartialEq, Eq)]
pub struct IdRequest {
    pub id: String,
    pub text: Option<String>,
}

/// What an [`IdRequest`] says.
pub struct IdRequestView {
    pub id: Seq<char>,
    pub text: Option<Seq<char>>,
}

impl View for IdRequest {
    type V = IdRequestView;

    open spec fn view(&self) -> IdRequestView {
        IdRequestView {
            id: self.id@,
            text: match self.text {
                Some(t) => Some(t@),
                None => None,
            },
        }
    }
}

impl IdRequestView {
    /// The text shown beside the value: the one given, or `null`.
    pub open spec fn shown_text(self) -> Seq<char> {
        match self.text {
            Some(t) => t,
            None => "null"@,
        }
    }
}

/// The words of a command, as sequences of characters.
pub open spec fn words(command: Seq<String>) -> Seq<Seq<char>> {
    command.map_values(|w: String| w@)
}

/// The command that reads the value stored under the request's key.
pub fn get_command(info: &IdRequest) -> (command: Vec<String>)
    ensures
        words(command@) == seq!["GET"@, info@.id],
{
    let mut command: Vec<String> = Vec::new();
    command.push(String::from_str("GET"));
    command.push(info.id.clone());
    assert(words(command@) =~= seq!["GET"@, info@.id]);
    command
}

/// The command that stores, under the request's key, the word `set`, a
/// space and the key.
pub fn set_command(info: &IdRequest) -> (command: Vec<String>)
    ensures
        words(command@) == seq!["SET"@, info@.id, "set "@ + info@.id],
{
    let mut command: Vec<String> = Vec::new();
    command.push(String::from_str("SET"));
    command.push(info.id.clone());
    command.push(String::from_str("set ").concat(info.id.as_str()));
    assert(words(command@) =~= seq!["SET"@, info@.id, "set "@ + info@.id]);
    command
}

/// The command that asks the store whether it is there.
pub fn ping_command() -> (command: Vec<String>)
    ensures
        words(command@) == seq!["PING"@],
{
    let mut command: Vec<String> = Vec::new();
    command.push(String::from_str("PING"));
    assert(words(command@) =~= seq!["PING"@]);
    command
}

/// The answer to `GET /get`, given the store's reply to the read.
pub open spec fn get_response(info: IdRequestView, reply: Result<Option<String>, Error>)
    -> ResponseView {
    match reply {
        Ok(Some(value)) => ResponseView::plain(
            OK as int,
            "<p>"@ + value@ + "<br><b>"@ + info.shown_text() + "</b></p>"@,
        ).with_header("ContentEncoding"@, "Gzip"@).with_header(
            "content-type"@,
            "text/html; charset=utf-8"@,
        ),
        Ok(None) => ResponseView::plain(
            OK as int,
            "<p>not id:"@ + info.id + "</p>"@,
        ).with_header("content-type"@, "text/html; charset=utf-8"@),
        Err(e) => ResponseView::failure(e),
    }
}

/// The answer to `GET /set` and to `GET /watcher`, given the store's reply:
/// whatever the store says on success is answered with `OK`.
pub open spec fn ack_response(reply: Result<String, Error>) -> ResponseView {
    match reply {
        Ok(_) => ResponseView::plain(OK as int, "OK"@),
        Err(e) => ResponseView::failure(e),
    }
}

/// Answers `GET /get`: 200 with the value and the request's text as HTML,
/// 200 with a note that the key is unknown, or 500 with the failure's
/// message.
pub fn get(info: &IdRequest, reply: Result<Option<String>, Error>) -> (r: Response)
    ensures
        r@ == get_response(info@, reply),
{
    match reply {
        Ok(Some(value)) => {
            let body = String::from_str("<p>").concat(value.as_str()).concat("<br><b>");
            let body = match &info.text {
                Some(t) => body.concat(t.as_str()),
                None => body.concat("null"),
            };
            let body = body.concat("</b></p>");
            Response::plain(OK, body).with_header("ContentEncoding", "Gzip").with_header(
                "content-type",
                "text/html; charset=utf-8",
            )
        },
        Ok(None) => {
            let body = String::from_str("<p>not id:").concat(info.id.as_str()).concat("</p>");
            Response::plain(OK, body).with_header("content-type", "text/html; charset=utf-8")
        },
        Err(e) => Response::failure(&e),
    }
}

/// Answers `GET /set`: 200 `OK` once the store took the value, 500 with the
/// failure's message otherwise.
pub fn set(reply: Result<String, Error>) -> (r: Response)
    ensures
        r@ == ack_response(reply),
{
    match reply {
        Ok(_) => Response::plain(OK, String::from_str("OK")),
        Err(e) => Response::failure(&e),
    }
}

/// Answers `GET /watcher`: 200 `OK` once the store answered the ping, 500
/// with the failure's message otherwise.
pub fn watcher(reply: Result<String, Error>) -> (r: Response)
    ensures
        r@ == ack_response(reply),
{
    match reply {
        Ok(_) => Response::plain(OK, String::from_str("OK")),
        Err(e) => Response::failure(&e),
    }
}

} // verus!
