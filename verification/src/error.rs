//! What a session reports when an operation fails.

use vstd::prelude::*;

verus! {

/// The kinds of transport failure that a wait tells apart.
#[derive(Debug, Clone, Copy, PartialEq, Eq, Structural)]
pub enum IoKind {
    /// The read deadline passed before anything arrived.
    TimedOut,
    /// The read could not complete without blocking.
    WouldBlock,
    /// Any other failure of the transport.
    Other,
}

/// Why an operation on the connection failed.
#[derive(Debug, Clone, Copy, PartialEq, Eq, Structural)]
pub enum Error {
    /// The transport failed.
    Io(IoKind),
    /// The server answered a command with `BAD`.
    Bad,
    /// The server answered a command with `NO`.
    No,
    /// The connection was closed by the peer.
    ConnectionLost,
    /// The server answered the entry command with something other than a continuation request.
    ProtocolViolation,
}

impl Error {
    /// A read that ended because its deadline passed, rather than because the transport broke.
    pub open spec fn deadline_passed(self) -> bool {
        self == Error::Io(IoKind::TimedOut) || self == Error::Io(IoKind::WouldBlock)
    }

    /// Whether this error only says that nothing arrived before the read deadline.
    pub fn is_timeout(&self) -> (r: bool)
        ensures
            r == self.deadline_passed(),
    {
        match self {
            Error::Io(IoKind::TimedOut) => true,
            Error::Io(IoKind::WouldBlock) => true,
            _ => false,
        }
    }
}

} // verus!
