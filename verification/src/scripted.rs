//! A session that lives in memory: it answers each call from a prepared script and keeps a
//! record of every call that was made on it.
//!
//! It shows that the contracts of [`Session`] and [`SetReadTimeout`] can be met, and it lets a
//! wait be run from beginning to end without a server.

use crate::error::{Error, IoKind};
use crate::session::{Exchange, Session, SetReadTimeout};
use std::time::Duration;
use vstd::prelude::*;

verus! {

/// How the peer answers one call.
#[derive(Debug, PartialEq, Eq)]
pub enum Reply {
    /// The call succeeds. A read that is answered so reads nothing.
    Accept,
    /// The call succeeds, and if it is a read, these bytes arrive.
    Line(Vec<u8>),
    /// The call fails with this error.
    Fail(Error),
}

/// One call that was made on a [`ScriptedSession`], and how it ended.
#[derive(Debug, PartialEq, Eq)]
pub enum Record {
    /// `run_command` with this text.
    Command(String, Result<(), Error>),
    /// `readline`; on success, what the buffer held afterwards.
    Line(Result<Vec<u8>, Error>),
    /// `read_response`; on success, the bytes returned.
    Response(Result<Vec<u8>, Error>),
    /// `write_line` with these bytes.
    Write(Vec<u8>, Result<(), Error>),
    /// `flush`.
    Flush(Result<(), Error>),
    /// `set_read_timeout` with this deadline.
    Deadline(Option<Duration>, Result<(), Error>),
}

impl View for Record {
    type V = Exchange;

    open spec fn view(&self) -> Exchange {
        match *self {
            Record::Command(text, outcome) => Exchange::Command(text@, outcome),
            Record::Line(outcome) => Exchange::Line(
                match outcome {
                    Ok(bytes) => Ok(bytes@),
                    Err(e) => Err(e),
                },
            ),
            Record::Response(outcome) => Exchange::Response(
                match outcome {
                    Ok(bytes) => Ok(bytes@),
                    Err(e) => Err(e),
                },
            ),
            Record::Write(line, outcome) => Exchange::Write(line@, outcome),
            Record::Flush(outcome) => Exchange::Flush(outcome),
            Record::Deadline(timeout, outcome) => Exchange::Deadline(timeout, outcome),
        }
    }
}

/// The journal that a log of records stands for.
pub open spec fn journal_of(log: Seq<Record>) -> Seq<Exchange> {
    log.map_values(|record: Record| record@)
}

/// What a call is answered with: the bytes that arrive, or the error. A script that has run
/// out answers every call with [`Error::ConnectionLost`].
pub open spec fn answer(reply: Option<Reply>) -> Result<Seq<u8>, Error> {
    match reply {
        None => Err(Error::ConnectionLost),
        Some(Reply::Accept) => Ok(Seq::empty()),
        Some(Reply::Line(bytes)) => Ok(bytes@),
        Some(Reply::Fail(e)) => Err(e),
    }
}

/// The outcome of a call that carries no bytes back.
pub open spec fn settled(reply: Option<Reply>) -> Result<(), Error> {
    match answer(reply) {
        Ok(_) => Ok(()),
        Err(e) => Err(e),
    }
}

/// Copies a slice of bytes into a vector of its own.
pub fn copy_bytes(bytes: &[u8]) -> (out: Vec<u8>)
    ensures
        out@ == bytes@,
{
    let mut out: Vec<u8> = Vec::new();
    let mut i: usize = 0;
    while i < bytes.len()
        invariant
            i <= bytes.len(),
            out@ == bytes@.take(i as int),
        decreases bytes.len() - i,
    {
        out.push(bytes[i]);
        i += 1;
        assert(out@ =~= bytes@.take(i as int));
    }
    assert(bytes@.take(bytes.len() as int) =~= bytes@);
    out
}

/// A session in memory, for running a wait against a prepared script.
///
/// The script holds one [`Reply`] for each call that changes the session, in the order of the
/// calls. Reading the configured deadline takes no reply.
pub struct ScriptedSession {
    script: Vec<Reply>,
    cursor: usize,
    log: Vec<Record>,
    deadline: Option<Duration>,
    deadline_hidden: bool,
}

impl ScriptedSession {
    /// The replies that the session was made with.
    pub closed spec fn script(&self) -> Seq<Reply> {
        self.script@
    }

    /// How many replies have been used.
    pub closed spec fn consumed(&self) -> nat {
        self.cursor as nat
    }

    /// The records of the calls made so far, oldest first.
    pub closed spec fn records(&self) -> Seq<Record> {
        self.log@
    }

    /// Whether reading the configured deadline is refused.
    pub closed spec fn hides_deadline(&self) -> bool {
        self.deadline_hidden
    }

    /// The reply that the next call will use, if the script has not run out.
    pub open spec fn upcoming(&self) -> Option<Reply> {
        if self.consumed() < self.script().len() {
            Some(self.script()[self.consumed() as int])
        } else {
            None
        }
    }

    /// Whether `self` is `before` after one call that used a reply and was recorded as `entry`.
    pub open spec fn advanced(&self, before: &Self, entry: Exchange) -> bool {
        &&& self.script() == before.script()
        &&& self.consumed() == if before.consumed() < before.script().len() {
            before.consumed() + 1
        } else {
            before.consumed()
        }
        &&& self.hides_deadline() == before.hides_deadline()
        &&& self.records().len() == before.records().len() + 1
        &&& journal_of(self.records()) == journal_of(before.records()).push(entry)
    }

    /// A session that will answer its calls from `script`. Nothing has been called yet, and no
    /// read deadline is configured.
    pub fn new(script: Vec<Reply>) -> (s: Self)
        ensures
            s.script() == script@,
            s.consumed() == 0,
            s.records().len() == 0,
            s.journal() == Seq::<Exchange>::empty(),
            s.read_deadline() is None,
            !s.hides_deadline(),
    {
        let s = ScriptedSession {
            script,
            cursor: 0,
            log: Vec::new(),
            deadline: None,
            deadline_hidden: false,
        };
        assert(journal_of(s.log@) =~= Seq::<Exchange>::empty());
        s
    }

    /// Makes the session refuse from now on to say which read deadline is configured.
    pub fn hide_deadline(&mut self)
        ensures
            final(self).hides_deadline(),
            final(self).script() == old(self).script(),
            final(self).consumed() == old(self).consumed(),
            final(self).records() == old(self).records(),
            final(self).journal() == old(self).journal(),
            final(self).read_deadline() == old(self).read_deadline(),
    {
        self.deadline_hidden = true;
    }

    /// The records of the calls made so far, oldest first.
    pub fn log(&self) -> (log: &Vec<Record>)
        ensures
            log@ == self.records(),
            journal_of(log@) == self.journal(),
    {
        &self.log
    }

    /// The read deadline that is configured now.
    pub fn deadline(&self) -> (d: Option<Duration>)
        ensures
            d == self.read_deadline(),
    {
        self.deadline
    }

    /// How many replies of the script are still unused.
    pub fn remaining(&self) -> (n: usize)
        ensures
            n == if self.consumed() <= self.script().len() {
                self.script().len() - self.consumed()
            } else {
                0
            },
    {
        if self.cursor <= self.script.len() {
            self.script.len() - self.cursor
        } else {
            0
        }
    }

    /// Takes the next reply off the script.
    fn take(&mut self) -> (got: Result<Vec<u8>, Error>)
        ensures
            match got {
                Ok(bytes) => answer(old(self).upcoming()) == Ok::<Seq<u8>, Error>(bytes@),
                Err(e) => answer(old(self).upcoming()) == Err::<Seq<u8>, Error>(e),
            },
            final(self).script() == old(self).script(),
            final(self).consumed() == if old(self).consumed() < old(self).script().len() {
                old(self).consumed() + 1
            } else {
                old(self).consumed()
            },
            final(self).records() == old(self).records(),
            final(self).hides_deadline() == old(self).hides_deadline(),
            final(self).read_deadline() == old(self).read_deadline(),
    {
        if self.cursor < self.script.len() {
            let got = match &self.script[self.cursor] {
                Reply::Accept => Ok(Vec::new()),
                Reply::Line(bytes) => Ok(copy_bytes(bytes.as_slice())),
                Reply::Fail(e) => Err(*e),
            };
            self.cursor = self.cursor + 1;
            got
        } else {
            Err(Error::ConnectionLost)
        }
    }

    /// Adds a record to the log.
    fn note(&mut self, record: Record)
        ensures
            final(self).script() == old(self).script(),
            final(self).consumed() == old(self).consumed(),
            final(self).hides_deadline() == old(self).hides_deadline(),
            final(self).read_deadline() == old(self).read_deadline(),
            final(self).records() == old(self).records().push(record),
            final(self).journal() == old(self).journal().push(record@),
    {
        self.log.push(record);
        assert(journal_of(self.log@) =~= journal_of(old(self).log@).push(record@));
    }
}

impl Session for ScriptedSession {
    closed spec fn journal(&self) -> Seq<Exchange> {
        journal_of(self.log@)
    }

    closed spec fn read_deadline(&self) -> Option<Duration> {
        self.deadline
    }

    fn run_command(&mut self, command: &str) -> (r: Result<(), Error>)
        ensures
            r == settled(old(self).upcoming()),
            final(self).advanced(old(self), Exchange::Command(command@, r)),
    {
        let r = match self.take() {
            Ok(_) => Ok(()),
            Err(e) => Err(e),
        };
        self.note(Record::Command(command.to_owned(), r));
        r
    }

    fn readline(&mut self, into: &mut Vec<u8>) -> (r: Result<usize, Error>)
        ensures
            match answer(old(self).upcoming()) {
                Ok(bytes) => r == Ok::<usize, Error>(bytes.len() as usize) && final(into)@ == old(
                    into,
                )@ + bytes,
                Err(e) => r == Err::<usize, Error>(e) && final(into)@ == old(into)@,
            },
            final(self).advanced(
                old(self),
                Exchange::Line(
                    match r {
                        Ok(_) => Ok(final(into)@),
                        Err(e) => Err(e),
                    },
                ),
            ),
    {
        match self.take() {
            Ok(bytes) => {
                let mut i: usize = 0;
                while i < bytes.len()
                    invariant
                        i <= bytes.len(),
                        into@ == old(into)@ + bytes@.take(i as int),
                    decreases bytes.len() - i,
                {
                    into.push(bytes[i]);
                    i += 1;
                    assert(into@ =~= old(into)@ + bytes@.take(i as int));
                }
                assert(bytes@.take(bytes.len() as int) =~= bytes@);
                self.note(Record::Line(Ok(copy_bytes(into.as_slice()))));
                Ok(bytes.len())
            },
            Err(e) => {
                self.note(Record::Line(Err(e)));
                Err(e)
            },
        }
    }

    fn read_response(&mut self) -> (r: Result<Vec<u8>, Error>)
        ensures
            match r {
                Ok(bytes) => answer(old(self).upcoming()) == Ok::<Seq<u8>, Error>(bytes@),
                Err(e) => answer(old(self).upcoming()) == Err::<Seq<u8>, Error>(e),
            },
            final(self).advanced(
                old(self),
                Exchange::Response(
                    match r {
                        Ok(bytes) => Ok(bytes@),
                        Err(e) => Err(e),
                    },
                ),
            ),
    {
        match self.take() {
            Ok(bytes) => {
                self.note(Record::Response(Ok(copy_bytes(bytes.as_slice()))));
                Ok(bytes)
            },
            Err(e) => {
                self.note(Record::Response(Err(e)));
                Err(e)
            },
        }
    }

    fn write_line(&mut self, line: &[u8]) -> (r: Result<(), Error>)
        ensures
            r == settled(old(self).upcoming()),
            final(self).advanced(old(self), Exchange::Write(line@, r)),
    {
        let r = match self.take() {
            Ok(_) => Ok(()),
            Err(e) => Err(e),
        };
        self.note(Record::Write(copy_bytes(line), r));
        r
    }

    fn flush(&mut self) -> (r: Result<(), Error>)
        ensures
            r == settled(old(self).upcoming()),
            final(self).advanced(old(self), Exchange::Flush(r)),
    {
        let r = match self.take() {
            Ok(_) => Ok(()),
            Err(e) => Err(e),
        };
        self.note(Record::Flush(r));
        r
    }
}

impl SetReadTimeout for ScriptedSession {
    closed spec fn timeout_reading(&self) -> Result<Option<Duration>, Error> {
        if self.deadline_hidden {
            Err(Error::Io(IoKind::Other))
        } else {
            Ok(self.deadline)
        }
    }

    fn set_read_timeout(&mut self, timeout: Option<Duration>) -> (r: Result<(), Error>)
        ensures
            r == settled(old(self).upcoming()),
            final(self).advanced(old(self), Exchange::Deadline(timeout, r)),
            r is Err ==> final(self).read_deadline() == old(self).read_deadline(),
    {
        let r = match self.take() {
            Ok(_) => Ok(()),
            Err(e) => Err(e),
        };
        if r.is_ok() {
            self.deadline = timeout;
        }
        self.note(Record::Deadline(timeout, r));
        r
    }

    fn read_timeout(&self) -> (r: Result<Option<Duration>, Error>)
        ensures
            r == if self.hides_deadline() {
                Err::<Option<Duration>, Error>(Error::Io(IoKind::Other))
            } else {
                Ok(self.read_deadline())
            },
    {
        if self.deadline_hidden {
            Err(Error::Io(IoKind::Other))
        } else {
            Ok(self.deadline)
        }
    }
}

} // verus!
