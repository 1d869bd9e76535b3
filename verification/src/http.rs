//! An HTTP response as plain data: what a handler decides, before the server
//! puts it on the wire.

use vstd::prelude::*;
use crate::error::Error;

verus! {

/// Status 200.
pub const OK: u16 = 200;

/// Status 400.
pub const BAD_REQUEST: u16 = 400;

/// Status 408.
pub const REQUEST_TIMEOUT: u16 = 408;

/// Status 500.
pub const INTERNAL_SERVER_ERROR: u16 = 500;

/// One response header.
#[derive(Debug, PartialEq, Eq)]
pub struct Header {
    pub name: String,
    pub value: String,
}

impl View for Header {
    type V = (Seq<char>, Seq<char>);

    open spec fn view(&self) -> (Seq<char>, Seq<char>) {
        (self.name@, self.value@)
    }
}

/// A response: status code, headers in the order they were set, and body.
#[derive(Debug, PartialEq, Eq)]
pub struct Response {
    pub status: u16,
    pub headers: Vec<Header>,
    pub body: String,
}

/// A response as a mathematical value.
pub struct ResponseView {
    pub status: int,
    pub headers: Seq<(Seq<char>, Seq<char>)>,
    pub body: Seq<char>,
}

impl View for Response {
    type V = ResponseView;

    open spec fn view(&self) -> ResponseView {
        ResponseView {
            status: self.status as int,
            headers: self.headers@.map_values(|h: Header| h@),
            body: self.body@,
        }
    }
}

impl ResponseView {
    /// A response with a body and no header.
    pub open spec fn plain(status: int, body: Seq<char>) -> ResponseView {
        ResponseView { status: status, headers: Seq::empty(), body: body }
    }

    /// This response with one more header, set after those it has.
    pub open spec fn with_header(self, name: Seq<char>, value: Seq<char>) -> ResponseView {
        ResponseView { headers: self.headers.push((name, value)), ..self }
    }

    /// The response that answers a failure nobody handled, given the
    /// failure's message: status 500, the message as plain text.
    pub open spec fn failure_text(message: Seq<char>) -> ResponseView {
        ResponseView::plain(INTERNAL_SERVER_ERROR as int, message).with_header(
            "content-type"@,
            "text/plain; charset=utf-8"@,
        )
    }

    /// The response that answers a failure nobody handled.
    pub open spec fn failure(e: Error) -> ResponseView {
        ResponseView::failure_text(e.message_text())
    }
}

impl Response {
    /// A response with a body and no header.
    pub fn plain(status: u16, body: String) -> (r: Response)
        ensures
            r@ == ResponseView::plain(status as int, body@),
    {
        let r = Response { status: status, headers: Vec::new(), body: body };
        assert(r@.headers =~= Seq::empty());
        r
    }

    /// Adds a header after those already set.
    pub fn with_header(self, name: &str, value: &str) -> (r: Response)
        ensures
            r@ == self@.with_header(name@, value@),
    {
        let mut headers = self.headers;
        headers.push(Header { name: String::from_str(name), value: String::from_str(value) });
        let r = Response { status: self.status, headers: headers, body: self.body };
        assert(r@.headers =~= self@.headers.push((name@, value@)));
        r
    }

    /// The response that answers a failure nobody handled.
    pub fn failure(e: &Error) -> (r: Response)
        ensures
            r@ == ResponseView::failure(*e),
    {
        Response::plain(e.status_code(), e.message()).with_header(
            "content-type",
            "text/plain; charset=utf-8",
        )
    }
}

} // verus!
