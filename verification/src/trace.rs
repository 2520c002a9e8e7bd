//! What each operation of a handle appends to the journal of its session, and what it returns.
//!
//! Each predicate here takes the entries that one operation appended, oldest first, and the
//! value that the operation returned. It holds exactly when the entries are the calls that the
//! operation makes, in its order, each later call made only after the outcomes before it, and
//! the value is the one that those outcomes lead to.

use crate::error::Error;
use crate::session::Exchange;
use crate::wire::{done_line, drain_deadline, entry_command, is_continuation};
use std::time::Duration;
use vstd::prelude::*;

verus! {

/// The entries of `after` that follow the first `before.len()`.
pub open spec fn appended(before: Seq<Exchange>, after: Seq<Exchange>) -> Seq<Exchange> {
    after.skip(before.len() as int)
}

/// What one call appended, seen from the journal before it.
pub proof fn lemma_appended_push(before: Seq<Exchange>, entry: Exchange)
    ensures
        before.is_prefix_of(before.push(entry)),
        appended(before, before.push(entry)) == seq![entry],
{
    assert(appended(before, before.push(entry)) =~= seq![entry]);
}

/// What two runs of calls appended, one after the other.
pub proof fn lemma_appended_twice(a: Seq<Exchange>, b: Seq<Exchange>, c: Seq<Exchange>)
    requires
        a.is_prefix_of(b),
        b.is_prefix_of(c),
    ensures
        a.is_prefix_of(c),
        appended(a, c) == appended(a, b) + appended(b, c),
        appended(a, c).take(appended(a, b).len() as int) == appended(a, b),
        appended(a, c).skip(appended(a, b).len() as int) == appended(b, c),
{
    assert(appended(a, c) =~= appended(a, b) + appended(b, c));
    assert(appended(a, c).take(appended(a, b).len() as int) =~= appended(a, b));
    assert(appended(a, c).skip(appended(a, b).len() as int) =~= appended(b, c));
}

/// Whether an entry is the writing of the termination line, whether or not it succeeded.
pub open spec fn writes_done(entry: Exchange) -> bool {
    entry matches Exchange::Write(line, _) && line == done_line()
}

/// Exactly one of the entries is the writing of the termination line.
pub open spec fn done_sent_once(added: Seq<Exchange>) -> bool {
    exists|i: int|
        {
            &&& 0 <= i < added.len()
            &&& writes_done(#[trigger] added[i])
            &&& forall|j: int| 0 <= j < added.len() && writes_done(#[trigger] added[j]) ==> j == i
        }
}

/// None of the entries is the writing of a line.
pub open spec fn nothing_written(added: Seq<Exchange>) -> bool {
    forall|j: int| 0 <= j < added.len() ==> !(#[trigger] added[j] is Write)
}

/// What the line that answered the entry command means: a continuation request admits the
/// long wait, anything else is a protocol violation.
pub open spec fn verdict(line: Seq<u8>) -> Result<(), Error> {
    if is_continuation(line) {
        Ok(())
    } else {
        Err(Error::ProtocolViolation)
    }
}

/// The entry handshake: the entry command is sent, and if that succeeded exactly one line is
/// read and judged. Nothing follows a failure or a line that is no continuation request.
pub open spec fn handshake(added: Seq<Exchange>, r: Result<(), Error>) -> bool {
    &&& added.len() >= 1
    &&& added[0] matches Exchange::Command(text, sent)
    &&& text == entry_command()
    &&& match sent {
        Err(e) => added.len() == 1 && r == Err::<(), Error>(e),
        Ok(_) => {
            &&& added.len() == 2
            &&& added[1] matches Exchange::Line(got)
            &&& r == match got {
                Ok(line) => verdict(line),
                Err(e) => Err(e),
            }
        },
    }
}

/// Ending a long wait that is active: `DONE` is written, the outbound buffer is flushed, and one
/// tagged response is read and discarded. The first failure ends the sequence and is returned.
pub open spec fn termination(added: Seq<Exchange>, r: Result<(), Error>) -> bool {
    &&& added.len() >= 1
    &&& added[0] matches Exchange::Write(line, wrote)
    &&& line == done_line()
    &&& match wrote {
        Err(e) => added.len() == 1 && r == Err::<(), Error>(e),
        Ok(_) => {
            &&& added.len() >= 2
            &&& added[1] matches Exchange::Flush(flushed)
            &&& match flushed {
                Err(e) => added.len() == 2 && r == Err::<(), Error>(e),
                Ok(_) => {
                    &&& added.len() == 3
                    &&& added[2] matches Exchange::Response(got)
                    &&& r == match got {
                        Ok(_) => Ok::<(), Error>(()),
                        Err(e) => Err(e),
                    }
                },
            }
        },
    }
}

/// Terminating a handle: nothing at all once the handle is done, else [`termination`].
pub open spec fn terminate_run(done: bool, added: Seq<Exchange>, r: Result<(), Error>) -> bool {
    if done {
        added.len() == 0 && r == Ok::<(), Error>(())
    } else {
        termination(added, r)
    }
}

/// Releasing a handle: it is terminated, and how that ended is not reported.
pub open spec fn release_run(done: bool, added: Seq<Exchange>) -> bool {
    exists|r: Result<(), Error>| terminate_run(done, added, r)
}

/// What a single blocking read means to a wait: a line is news, a failure is returned.
pub open spec fn arrival(got: Result<Seq<u8>, Error>) -> Result<bool, Error> {
    match got {
        Ok(_) => Ok(true),
        Err(e) => Err(e),
    }
}

/// The read of an unbounded wait: one line is read, under whatever deadline is configured.
pub open spec fn watch(added: Seq<Exchange>, r: Result<bool, Error>) -> bool {
    &&& added.len() == 1
    &&& added[0] matches Exchange::Line(got)
    &&& r == arrival(got)
}

/// An unbounded wait: [`watch`], then the handle is released.
pub open spec fn wait_run(done: bool, added: Seq<Exchange>, r: Result<bool, Error>) -> bool {
    &&& added.len() >= 1
    &&& watch(added.take(1), r)
    &&& release_run(done, added.skip(1))
}

/// The read of a bounded wait, with the deadline already installed, and what follows it.
///
/// - A line arrived: the deadline `saved` is put back; `true` if the transport took it.
/// - The deadline passed: the drain deadline is installed and the handle is terminated;
///   `false` if both succeeded. `saved` is not put back.
/// - The read failed otherwise: the failure is returned and nothing else is done.
pub open spec fn watch_bounded(
    done: bool,
    saved: Option<Duration>,
    added: Seq<Exchange>,
    r: Result<bool, Error>,
) -> bool {
    &&& added.len() >= 1
    &&& added[0] matches Exchange::Line(got)
    &&& match got {
        Ok(_) => {
            &&& added.len() == 2
            &&& added[1] matches Exchange::Deadline(timeout, put_back)
            &&& timeout == saved
            &&& r == match put_back {
                Ok(_) => Ok::<bool, Error>(true),
                Err(e) => Err(e),
            }
        },
        Err(e) => if e.deadline_passed() {
            &&& added.len() >= 2
            &&& added[1] matches Exchange::Deadline(timeout, installed)
            &&& timeout == Some(drain_deadline())
            &&& match installed {
                Err(e2) => added.len() == 2 && r == Err::<bool, Error>(e2),
                Ok(_) => exists|t: Result<(), Error>|
                    {
                        &&& #[trigger] terminate_run(done, added.skip(2), t)
                        &&& r == match t {
                            Ok(_) => Ok::<bool, Error>(false),
                            Err(e3) => Err(e3),
                        }
                    },
            }
        } else {
            added.len() == 1 && r == Err::<bool, Error>(e)
        },
    }
}

/// Whether the entries of [`watch_bounded`] show that the handle was terminated: the deadline
/// passed and the drain deadline was installed.
pub open spec fn drained(added: Seq<Exchange>) -> bool {
    &&& added.len() >= 2
    &&& added[0] matches Exchange::Line(Err(e))
    &&& e.deadline_passed()
    &&& added[1] matches Exchange::Deadline(_, Ok(_))
}

/// The read of a bounded wait and all that follows it, to the release of the handle.
///
/// - A line arrived: the deadline `saved` is put back; `true` if the transport took it. The
///   handle is released.
/// - The deadline passed: the drain deadline is installed. If the transport took it, the handle
///   is terminated, and `false` is returned if that succeeded, else its failure. If not, the
///   transport's failure is returned and the handle is released.
/// - The read failed otherwise: the failure is returned and the handle is released.
pub open spec fn bounded_read(
    done: bool,
    saved: Option<Duration>,
    rest: Seq<Exchange>,
    r: Result<bool, Error>,
) -> bool {
    &&& rest.len() >= 1
    &&& rest[0] matches Exchange::Line(got)
    &&& match got {
        Ok(_) => {
            &&& rest.len() >= 2
            &&& rest[1] matches Exchange::Deadline(timeout, put_back)
            &&& timeout == saved
            &&& r == match put_back {
                Ok(_) => Ok::<bool, Error>(true),
                Err(e) => Err(e),
            }
            &&& release_run(done, rest.skip(2))
        },
        Err(e) => if e.deadline_passed() {
            &&& rest.len() >= 2
            &&& rest[1] matches Exchange::Deadline(timeout, installed)
            &&& timeout == Some(drain_deadline())
            &&& match installed {
                Err(e2) => r == Err::<bool, Error>(e2) && release_run(done, rest.skip(2)),
                Ok(_) => exists|t: Result<(), Error>|
                    {
                        &&& #[trigger] terminate_run(done, rest.skip(2), t)
                        &&& r == match t {
                            Ok(_) => Ok::<bool, Error>(false),
                            Err(e3) => Err(e3),
                        }
                    },
            }
        } else {
            r == Err::<bool, Error>(e) && release_run(done, rest.skip(1))
        },
    }
}

/// Whether the entries of [`watch_bounded`] show that a line arrived.
pub open spec fn arrived(added: Seq<Exchange>) -> bool {
    added.len() >= 1 && added[0] matches Exchange::Line(Ok(_))
}

/// A bounded wait, where `found` is what reading the configured deadline gave. The reading
/// leaves no entry.
///
/// - The deadline could not be read (`found` is the failure): that failure is returned, no
///   deadline is installed and no line is read; the handle is released.
/// - The deadline was read (`found` holds it): `timeout` is installed. If the transport refuses,
///   its failure is returned, no line is read, and the handle is released. Otherwise
///   [`bounded_read`], with the deadline found as the one to put back.
pub open spec fn wait_timeout_found_run(
    done: bool,
    found: Result<Option<Duration>, Error>,
    timeout: Duration,
    added: Seq<Exchange>,
    r: Result<bool, Error>,
) -> bool {
    match found {
        Err(e) => r == Err::<bool, Error>(e) && release_run(done, added),
        Ok(saved) => {
            &&& added.len() >= 1
            &&& added[0] matches Exchange::Deadline(t, installed)
            &&& t == Some(timeout)
            &&& match installed {
                Err(e) => r == Err::<bool, Error>(e) && release_run(done, added.skip(1)),
                Ok(_) => bounded_read(done, saved, added.skip(1), r),
            }
        },
    }
}

} // verus!
