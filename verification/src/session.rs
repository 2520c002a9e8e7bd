//! What a wait needs from the connection it borrows.
//!
//! A [`Session`] is an authenticated connection with a mailbox selected, seen as line-oriented
//! primitives. Its `journal` is the ghost record of every call made on it, in order, each with
//! how it ended; the contracts of [`crate::idle::Handle`] say which calls a wait makes by saying
//! what it appends.

use crate::error::Error;
use std::time::Duration;
use vstd::prelude::*;

verus! {

/// One call on a session, and how it ended.
pub enum Exchange {
    /// A tagged command was sent, or could not be.
    Command(Seq<char>, Result<(), Error>),
    /// One raw line was read into a buffer, which then held these bytes; or the read failed.
    Line(Result<Seq<u8>, Error>),
    /// One complete tagged response was read, or the read failed.
    Response(Result<Seq<u8>, Error>),
    /// A raw line was written, or could not be.
    Write(Seq<u8>, Result<(), Error>),
    /// The outbound buffer was flushed, or could not be.
    Flush(Result<(), Error>),
    /// A read deadline was installed (`Some`) or cleared (`None`), or the transport refused.
    Deadline(Option<Duration>, Result<(), Error>),
}

/// The line-oriented primitives of a connection.
///
/// Each method appends exactly one entry to the journal: the call, with what it was given and
/// how it ended. None of them changes the read deadline that is configured on the transport.
/// Nothing is promised about whether a call succeeds.
///
/// What is proved of a [`crate::idle::Handle`] holds of a session whose methods meet these
/// contracts. [`crate::scripted::ScriptedSession`] is proved to; of an implementation that the
/// verifier has not seen it is taken on trust.
pub trait Session {
    /// Every call made on this session so far, oldest first.
    ///
    /// A verified implementation defines this. The body here is only what lets an
    /// implementation be compiled where the verifier is not run: it is one fixed value, so of an
    /// implementation that keeps it no method of this trait can be proved to meet its contract.
    closed spec fn journal(&self) -> Seq<Exchange> {
        arbitrary()
    }

    /// The read deadline configured on the transport; `None` where reads block without limit.
    ///
    /// A verified implementation defines this, as it does [`Session::journal`]; the body here
    /// is one fixed value and stands for no transport.
    closed spec fn read_deadline(&self) -> Option<Duration> {
        arbitrary()
    }

    /// Sends `command` as a tagged command line.
    fn run_command(&mut self, command: &str) -> (r: Result<(), Error>)
        ensures
            final(self).journal() == old(self).journal().push(Exchange::Command(command@, r)),
            final(self).read_deadline() == old(self).read_deadline(),
    ;

    /// Reads one raw line into `into`, blocking until the line is complete or the read deadline
    /// passes, and returns the number of bytes read. A deadline that passes is reported as an
    /// error for which [`Error::is_timeout`] holds.
    fn readline(&mut self, into: &mut Vec<u8>) -> (r: Result<usize, Error>)
        ensures
            final(self).journal() == old(self).journal().push(
                Exchange::Line(
                    match r {
                        Ok(_) => Ok(final(into)@),
                        Err(e) => Err(e),
                    },
                ),
            ),
            final(self).read_deadline() == old(self).read_deadline(),
    ;

    /// Reads one complete tagged response and returns its bytes.
    fn read_response(&mut self) -> (r: Result<Vec<u8>, Error>)
        ensures
            final(self).journal() == old(self).journal().push(
                Exchange::Response(
                    match r {
                        Ok(bytes) => Ok(bytes@),
                        Err(e) => Err(e),
                    },
                ),
            ),
            final(self).read_deadline() == old(self).read_deadline(),
    ;

    /// Writes `line` as one raw line.
    fn write_line(&mut self, line: &[u8]) -> (r: Result<(), Error>)
        ensures
            final(self).journal() == old(self).journal().push(Exchange::Write(line@, r)),
            final(self).read_deadline() == old(self).read_deadline(),
    ;

    /// Flushes what has been written to the transport.
    fn flush(&mut self) -> (r: Result<(), Error>)
        ensures
            final(self).journal() == old(self).journal().push(Exchange::Flush(r)),
            final(self).read_deadline() == old(self).read_deadline(),
    ;
}

/// Implemented by a session whose transport has a read deadline that can be read and set.
///
/// The waits that are bounded in time are offered only on such sessions.
pub trait SetReadTimeout: Session {
    /// Sets the deadline for subsequent reads; `None` removes it. Fails only if the transport
    /// rejects the operation. On success the configured deadline is `timeout`.
    fn set_read_timeout(&mut self, timeout: Option<Duration>) -> (r: Result<(), Error>)
        ensures
            final(self).journal() == old(self).journal().push(Exchange::Deadline(timeout, r)),
            r is Ok ==> final(self).read_deadline() == timeout,
    ;

    /// What [`SetReadTimeout::read_timeout`] returns on this session as it stands: the deadline
    /// that is configured, or the failure with which the transport rejects the question.
    ///
    /// A verified implementation defines this, as it does [`Session::journal`]; the body here
    /// is one fixed value and stands for no transport.
    closed spec fn timeout_reading(&self) -> Result<Option<Duration>, Error> {
        arbitrary()
    }

    /// Returns the read deadline that is configured. Fails only if the transport rejects the
    /// operation. The session is left as it is, so the answer is a matter of its state alone.
    fn read_timeout(&self) -> (r: Result<Option<Duration>, Error>)
        ensures
            r == self.timeout_reading(),
            r matches Ok(d) ==> d == self.read_deadline(),
    ;
}

} // verus!
