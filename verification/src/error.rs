//! The error taxonomy of the engine client. Every failure a caller can see
//! is tagged with exactly one of these kinds.

use vstd::prelude::*;

verus! {

/// One kind per distinguishable failure at the client boundary.
#[derive(Clone, Copy, Debug, PartialEq, Eq, Structural)]
pub enum Error {
    /// The engine was unreachable, or the connection closed before the
    /// sentinel line arrived.
    Connection,
    /// The sentinel was not observed within the read bound.
    Timeout,
    /// A reply line violated the decoder's required grammar.
    Parse,
    /// A caller-supplied parameter violated its contract; raised before any
    /// engine traffic.
    Validation,
    /// The engine itself answered with an explicit failure indicator.
    Engine,
    /// The request named no known operation.
    NotFound,
}

impl Error {
    /// A short stable tag for each kind, for callers that render errors.
    pub fn tag(&self) -> (r: &'static str)
        ensures
            self is Connection ==> r@ == "connection"@,
            self is Timeout ==> r@ == "timeout"@,
            self is Parse ==> r@ == "parse"@,
            self is Validation ==> r@ == "validation"@,
            self is Engine ==> r@ == "engine"@,
            self is NotFound ==> r@ == "not_found"@,
    {
        match self {
            Error::Connection => "connection",
            Error::Timeout => "timeout",
            Error::Parse => "parse",
            Error::Validation => "validation",
            Error::Engine => "engine",
            Error::NotFound => "not_found",
        }
    }
}

} // verus!
