//! The first key-value service: the same three routes as [`crate::kv`], for
//! a store that is taken to be there. It has no answer for a failure; its
//! caller stops when the store does not reply.
//!
//! | Route          | Command           | Answer                              |
//! |----------------|-------------------|-------------------------------------|
//! | `GET /get`     | `GET id`          | 200, the value as HTML              |
//! | `GET /set`     | `SET id "set id"` | 200, `set id;`                      |
//! | `GET /watcher` | `PING`            | 200, `OK` if the reply is `PONG`, else `NG` |

use vstd::prelude::*;
use crate::http::{Response, ResponseView, OK};
use crate::kv::{IdRequest, IdRequestView};

verus! {

/// The text shown beside the value: the one given, or `not text`.
pub open spec fn shown_text(info: IdRequestView) -> Seq<char> {
    match info.text {
        Some(t) => t,
        None => "not text"@,
    }
}

/// The answer to `GET /get`, given the value the store holds.
pub open spec fn get_response(info: IdRequestView, value: Seq<char>) -> ResponseView {
    ResponseView::plain(
        OK as int,
        "<p>"@ + value + "<br><b>"@ + shown_text(info) + "</b></p>"@,
    ).with_header("ContentEncoding"@, "Gzip"@).with_header("Content-Type"@, "text/html"@)
}

/// The answer to `GET /set`.
pub open spec fn set_response(info: IdRequestView) -> ResponseView {
    ResponseView::plain(OK as int, "set "@ + info.id + ";"@).with_header(
        "content-type"@,
        "text/plain"@,
    )
}

/// The answer to `GET /watcher`, given the store's reply to the ping.
pub open spec fn watcher_response(reply: Seq<char>) -> ResponseView {
    if reply == "PONG"@ {
        ResponseView::plain(OK as int, "OK"@)
    } else {
        ResponseView::plain(OK as int, "NG"@)
    }
}

/// Answers `GET /get`: 200 with the value and the request's text as HTML.
pub fn get(info: &IdRequest, value: &str) -> (r: Response)
    ensures
        r@ == get_response(info@, value@),
{
    let body = String::from_str("<p>").concat(value).concat("<br><b>");
    let body = match &info.text {
        Some(t) => body.concat(t.as_str()),
        None => body.concat("not text"),
    };
    let body = body.concat("</b></p>");
    Response::plain(OK, body).with_header("ContentEncoding", "Gzip").with_header(
        "Content-Type",
        "text/html",
    )
}

/// Answers `GET /set`: 200 with the word `set`, the key and a semicolon.
pub fn set(info: &IdRequest) -> (r: Response)
    ensures
        r@ == set_response(info@),
{
    let body = String::from_str("set ").concat(info.id.as_str()).concat(";");
    Response::plain(OK, body).with_header("content-type", "text/plain")
}

/// Answers `GET /watcher`: 200 with `OK` if the store replied `PONG`, with
/// `NG` if it replied anything else.
pub fn watcher(reply: &String) -> (r: Response)
    ensures
        r@ == watcher_response(reply@),
{
    let pong = String::from_str("PONG");
    if *reply == pong {
        Response::plain(OK, String::from_str("OK"))
    } else {
        Response::plain(OK, String::from_str("NG"))
    }
}

} // verus!
