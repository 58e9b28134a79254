//! The options of a session, with their defaults.

use vstd::prelude::*;
use crate::backoff::BackoffPolicy;

verus! {

/// How many frames may wait downstream unless the caller says otherwise.
pub const DOWNSTREAM_CAPACITY: usize = 32;

/// How long a connection may take to open unless the caller says otherwise, in
/// milliseconds.
pub const CONNECT_TIMEOUT_MS: u64 = 10_000;

/// The options of a session.
#[derive(Debug, Clone, PartialEq, Eq)]
pub struct Config {
    /// How many frames may wait downstream before the socket is read no further.
    pub downstream_capacity: usize,
    /// How long a connection may take to open, in milliseconds.
    pub connect_timeout_ms: u64,
    /// The wait between a failure and the next connection.
    pub backoff: BackoffPolicy,
    /// The proxy through which the transport connects, if any.
    pub proxy_url: Option<String>,
    /// An address that stands in for the venue's own, if any.
    pub endpoint_url: Option<String>,
}

impl Config {
    /// Whether the options can be used: downstream holds one frame at least, and the
    /// backoff is well formed.
    pub open spec fn wf(self) -> bool {
        self.downstream_capacity >= 1 && self.backoff.wf()
    }

    /// The defaults: 32 frames downstream, ten seconds to connect, the standard backoff,
    /// no proxy, the venue's own address.
    pub fn standard() -> (config: Config)
        ensures
            config.wf(),
            config.downstream_capacity == DOWNSTREAM_CAPACITY,
            config.connect_timeout_ms == CONNECT_TIMEOUT_MS,
            config.backoff == BackoffPolicy::standard_policy(),
            config.proxy_url is None,
            config.endpoint_url is None,
    {
        Config {
            downstream_capacity: DOWNSTREAM_CAPACITY,
            connect_timeout_ms: CONNECT_TIMEOUT_MS,
            backoff: BackoffPolicy::standard(),
            proxy_url: None,
            endpoint_url: None,
        }
    }

    /// Whether the options can be used.
    pub fn is_valid(&self) -> (valid: bool)
        ensures
            valid == self.wf(),
    {
        self.downstream_capacity >= 1 && self.backoff.is_valid()
    }
}

} // verus!
