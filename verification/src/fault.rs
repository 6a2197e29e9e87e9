//! The ways in which a connection can fail.

use vstd::prelude::*;

verus! {

/// Why a connection was aborted.
#[derive(Clone, Copy, Debug, PartialEq, Eq, Structural)]
pub enum Fault {
    /// The client closed the stream before its request was complete.
    UnexpectedEof,
    /// The request holds more than `HEADER_SLOTS` headers.
    CapacityExceeded,
    /// A stream failed in another way than by blocking.
    Stream,
    /// The upstream peer could not be reached.
    Dial,
    /// The connection had ended before the call.
    AlreadyFinished,
}

} // verus!
