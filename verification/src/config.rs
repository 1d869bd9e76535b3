//! What the services are started with: where they listen and where their
//! stores are.

use vstd::prelude::*;

verus! {

/// How long, in seconds, the key-value service waits for a pooled
/// connection before it gives up.
pub const POOL_TIMEOUT_SECS: u64 = 1;

/// The settings of one service.
#[derive(Debug, PartialEq, Eq)]
pub struct Config {
    /// How many workers handle requests.
    pub workers: usize,
    /// The port the service listens on, on every interface.
    pub web_port: u16,
    /// Where the store is: host, port and path, without the scheme.
    pub store: String,
}

impl Config {
    /// The address the service listens on: every interface.
    pub fn bind_host(&self) -> (host: &'static str)
        ensures
            host@ == "0.0.0.0"@,
    {
        "0.0.0.0"
    }

    /// The connection string of the relational store.
    pub fn mysql_url(&self) -> (url: String)
        ensures
            url@ == "mysql://"@ + self.store@,
    {
        String::from_str("mysql://").concat(self.store.as_str())
    }

    /// The connection string of the key-value store.
    pub fn redis_url(&self) -> (url: String)
        ensures
            url@ == "redis://"@ + self.store@,
    {
        String::from_str("redis://").concat(self.store.as_str())
    }
}

} // verus!
