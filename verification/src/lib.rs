//! Client-side logic for a line-oriented engine protocol: command framing,
//! sentinel-delimited reply extraction, per-family reply decoders, a
//! connection/retry state machine, and the domain facades built on them.
//! Socket I/O itself lives outside the library; every function here is a
//! total, verified computation on plain values.

pub mod decode;
pub mod error;
pub mod facade;
pub mod protocol;
pub mod records;
pub mod series;
pub mod session;
pub mod text;

use vstd::prelude::*;

verus! {

/// A reply handed back to a caller of the surrounding service: either data
/// was produced elsewhere, or it carries the error that stopped the call.
#[derive(Clone, Copy, Debug, PartialEq, Eq, Structural)]
pub enum Reply {
    Data,
    Failed(error::Error),
}

/// The reply for a request that matched no known operation.
pub fn not_found() -> (r: Reply)
    ensures
        r == Reply::Failed(error::Error::NotFound),
{
    reply_error(error::Error::NotFound)
}

/// Wraps an error as a caller-facing reply.
pub fn reply_error(e: error::Error) -> (r: Reply)
    ensures
        r == Reply::Failed(e),
{
    Reply::Failed(e)
}

} // verus!
