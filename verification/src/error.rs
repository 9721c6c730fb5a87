//! Errors raised when constructing a content-address hash from raw bytes.

use vstd::prelude::*;

verus! {

/// Failure to construct a hash from raw bytes.
#[derive(Debug, Clone, PartialEq, Eq)]
pub enum HoloHashError {
    /// The byte count does not fit the expected layout.
    BadSize,
    /// The 3-byte type prefix does not belong to the requested hash type:
    /// carries the expected prefix and the bytes that were found.
    BadPrefix(Vec<u8>, Vec<u8>),
}

/// Result alias for hash construction.
pub type HoloHashResult<T> = Result<T, HoloHashError>;

/// Failure at the routing layer. Only calls that owe their caller a
/// definitive answer ever see one; best-effort events are dropped with
/// a log instead.
#[derive(Debug, Clone, PartialEq, Eq)]
pub enum RouterError {
    /// The target space is not registered, for a call that demands a
    /// definitive answer.
    RoutingSpace(crate::types::KitsuneSpace),
    /// The routing layer is shutting down; no new space may be created.
    ShuttingDown,
    /// The transport pool offers no usable transport.
    NoValidTransport,
    /// A structured stats document had an unexpected shape.
    InvalidStats,
    /// A send or connect failed; surfaced to RPC-class callers.
    Transport,
    /// An RPC-class call expired before its response arrived.
    Timeout,
}

impl RouterError {
    /// A short description of the error kind.
    pub fn kind_name(&self) -> (r: &'static str)
        ensures
            self is RoutingSpace ==> r@ == "routing space error"@,
            self is ShuttingDown ==> r@ == "shutting down"@,
            self is NoValidTransport ==> r@ == "no valid transport"@,
            self is InvalidStats ==> r@ == "invalid stats"@,
            self is Transport ==> r@ == "transport failure"@,
            self is Timeout ==> r@ == "timeout"@,
    {
        match self {
            RouterError::RoutingSpace(_) => "routing space error",
            RouterError::ShuttingDown => "shutting down",
            RouterError::NoValidTransport => "no valid transport",
            RouterError::InvalidStats => "invalid stats",
            RouterError::Transport => "transport failure",
            RouterError::Timeout => "timeout",
        }
    }
}

} // verus!
