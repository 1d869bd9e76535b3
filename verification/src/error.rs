//! What can go wrong between a request and its response.

use vstd::prelude::*;
use vstd::std_specs::convert::FromSpecImpl;

verus! {

/// A failure of the service. The text carried by `Io` and `Sqlx` is the
/// message of the underlying failure.
#[derive(Debug, PartialEq, Eq)]
pub enum Error {
    /// The transport to the store, or the listening socket, failed.
    Io(String),
    /// The relational store could not run a statement, or refused it.
    Sqlx(String),
    /// No connection to the key-value store could be checked out of the
    /// pool in time.
    Pool(String),
    /// The key-value store could not run a command, or refused it.
    Redis(String),
    /// A query that must yield a row yielded none.
    NotFound,
    /// The worker running a blocking call was cancelled before it answered.
    BlockingCanceled,
}

/// How a blocking call run on a worker ended without a value: with the
/// call's own error, or cancelled.
#[derive(Debug, PartialEq, Eq)]
pub enum BlockingError {
    Error(Error),
    Canceled,
}

/// The store's message when the identifier column can take no further value.
pub open spec fn id_exhausted_text() -> Seq<char> {
    "Out of range value for column 'id' at row 1"@
}

/// The store's message for a row whose timestamp is an instant for which
/// there is no date-time.
pub open spec fn undated_text() -> Seq<char> {
    "timestamp out of range"@
}

impl Error {
    /// The failure to read a row whose timestamp is an instant for which
    /// there is no date-time.
    pub fn undated() -> (e: Error)
        ensures
            e matches Error::Sqlx(text) && text@ == undated_text(),
    {
        Error::Sqlx(String::from_str("timestamp out of range"))
    }

    /// The failure of an insert that finds the identifier column exhausted.
    pub fn id_exhausted() -> (e: Error)
        ensures
            e matches Error::Sqlx(text) && text@ == id_exhausted_text(),
    {
        Error::Sqlx(String::from_str("Out of range value for column 'id' at row 1"))
    }

    /// The text shown for this failure.
    pub open spec fn message_text(self) -> Seq<char> {
        match self {
            Error::Io(e) => "Io: "@ + e@,
            Error::Sqlx(e) => "Sqlx: "@ + e@,
            Error::Pool(e) => "Pool: "@ + e@,
            Error::Redis(e) => "Rdis: "@ + e@,
            Error::NotFound =>
                "Sqlx: no rows returned by a query that expected to return at least one row"@,
            Error::BlockingCanceled => "BlockingCanceled"@,
        }
    }

    /// The text shown for this failure: the kind, then the underlying
    /// message where there is one.
    pub fn message(&self) -> (text: String)
        ensures
            text@ == self.message_text(),
    {
        match self {
            Error::Io(e) => String::from_str("Io: ").concat(e.as_str()),
            Error::Sqlx(e) => String::from_str("Sqlx: ").concat(e.as_str()),
            Error::Pool(e) => String::from_str("Pool: ").concat(e.as_str()),
            Error::Redis(e) => String::from_str("Rdis: ").concat(e.as_str()),
            Error::NotFound => String::from_str(
                "Sqlx: no rows returned by a query that expected to return at least one row",
            ),
            Error::BlockingCanceled => String::from_str("BlockingCanceled"),
        }
    }

    /// The HTTP status a failure is answered with when it reaches the
    /// framework unhandled: 500, whatever the kind.
    pub fn status_code(&self) -> (code: u16)
        ensures
            code == 500,
    {
        500
    }
}

impl Clone for Error {
    fn clone(&self) -> (res: Self)
        ensures
            res == *self,
    {
        match self {
            Error::Io(e) => Error::Io(e.clone()),
            Error::Sqlx(e) => Error::Sqlx(e.clone()),
            Error::Pool(e) => Error::Pool(e.clone()),
            Error::Redis(e) => Error::Redis(e.clone()),
            Error::NotFound => Error::NotFound,
            Error::BlockingCanceled => Error::BlockingCanceled,
        }
    }
}

impl From<BlockingError> for Error {
    /// A blocking call's own error passes through unchanged; a cancelled
    /// call becomes `BlockingCanceled`.
    fn from(e: BlockingError) -> (res: Error) {
        match e {
            BlockingError::Error(inner) => inner,
            BlockingError::Canceled => Error::BlockingCanceled,
        }
    }
}

impl FromSpecImpl<BlockingError> for Error {
    open spec fn obeys_from_spec() -> bool {
        true
    }

    open spec fn from_spec(e: BlockingError) -> Error {
        match e {
            BlockingError::Error(inner) => inner,
            BlockingError::Canceled => Error::BlockingCanceled,
        }
    }
}

} // verus!
