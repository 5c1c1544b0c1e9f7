//! What can go wrong on the way from a symbol to a price.

use vstd::prelude::*;

verus! {

/// The classes of failure the service tells apart.
#[derive(Clone, Copy, Debug, PartialEq, Eq, Structural)]
pub enum ErrorKind {
    /// The request did not get through: no connection, or a time-out.
    Network,
    /// The source answered, but with an error of its own or an incomplete reply.
    Upstream,
    /// A text reply did not have the expected field layout.
    Parse,
    /// The hourly request budget is spent.
    RateLimitExceeded,
    /// A write to storage failed.
    Persistence,
    /// A notification could not be delivered.
    Notification,
}

/// The numeric fields read from a text reply.
#[derive(Clone, Copy, Debug, PartialEq, Eq, Structural)]
pub enum NumberField {
    Price,
    Volume,
}

/// Why one attempt to fetch a price failed.
#[derive(Debug)]
pub enum FetchError {
    /// The request did not complete.
    Network,
    /// The source answered with a status outside 200 to 299.
    HttpStatus(u16),
    /// The reply carried an error of the source's own.
    Upstream { code: String, description: String },
    /// The reply could not be decoded, or was of the wrong kind for the source.
    Malformed,
    /// The reply listed no result for the symbol.
    NoData,
    /// The reply's result carried no price.
    NoPrice,
    /// The text reply had fewer fields than the layout needs, or no quoted payload.
    Layout,
    /// A field of the text reply is not a number, or not one that a sample may
    /// carry: a price that is not above zero, a volume below zero.
    Number(NumberField),
    /// The reply's result carries a price that is not above zero, or a volume
    /// below zero.
    OutOfRange(NumberField),
    /// The symbol cannot be turned into an exchange code.
    Symbol,
    /// No attempt was made, because none is allowed.
    NoAttempts,
}

impl FetchError {
    /// The class this failure falls under.
    pub open spec fn spec_kind(&self) -> ErrorKind {
        match *self {
            FetchError::Network => ErrorKind::Network,
            FetchError::HttpStatus(_) => ErrorKind::Upstream,
            FetchError::Upstream { .. } => ErrorKind::Upstream,
            FetchError::Malformed => ErrorKind::Upstream,
            FetchError::NoData => ErrorKind::Upstream,
            FetchError::NoPrice => ErrorKind::Upstream,
            FetchError::Layout => ErrorKind::Parse,
            FetchError::Number(_) => ErrorKind::Parse,
            FetchError::OutOfRange(_) => ErrorKind::Upstream,
            FetchError::Symbol => ErrorKind::Parse,
            FetchError::NoAttempts => ErrorKind::Network,
        }
    }

    /// The class this failure falls under.
    pub fn kind(&self) -> (k: ErrorKind)
        ensures
            k == self.spec_kind(),
    {
        match self {
            FetchError::Network => ErrorKind::Network,
            FetchError::HttpStatus(_) => ErrorKind::Upstream,
            FetchError::Upstream { .. } => ErrorKind::Upstream,
            FetchError::Malformed => ErrorKind::Upstream,
            FetchError::NoData => ErrorKind::Upstream,
            FetchError::NoPrice => ErrorKind::Upstream,
            FetchError::Layout => ErrorKind::Parse,
            FetchError::Number(_) => ErrorKind::Parse,
            FetchError::OutOfRange(_) => ErrorKind::Upstream,
            FetchError::Symbol => ErrorKind::Parse,
            FetchError::NoAttempts => ErrorKind::Network,
        }
    }
}

} // verus!
