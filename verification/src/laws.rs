//! What holds of every handshake, wait and termination, whatever the peer does.
//!
//! Each law speaks of the entries that one operation appended to the journal and of what it
//! returned, through the predicates of [`crate::trace`] that the operations ensure.

use crate::error::Error;
use crate::session::Exchange;
use crate::trace::{
    done_sent_once, handshake, nothing_written, release_run, terminate_run, termination,
    wait_run, wait_timeout_found_run, writes_done,
};
use crate::wire::{done_line, drain_deadline, entry_command, is_continuation};
use std::time::Duration;
use vstd::prelude::*;

verus! {

/// The handshake succeeds exactly when the entry command was sent and the one line read in
/// answer is a continuation request.
pub proof fn law_handshake_succeeds_on_continuation(added: Seq<Exchange>, r: Result<(), Error>)
    requires
        handshake(added, r),
    ensures
        r is Ok <==> {
            &&& added.len() == 2
            &&& added[0] matches Exchange::Command(text, Ok(_))
            &&& text == entry_command()
            &&& added[1] matches Exchange::Line(Ok(line))
            &&& is_continuation(line)
        },
{
}

/// A line that is no continuation request fails the handshake as a protocol violation, and
/// nothing is read or written after it: in particular no termination line.
pub proof fn law_rejected_line_ends_handshake(
    added: Seq<Exchange>,
    r: Result<(), Error>,
    line: Seq<u8>,
)
    requires
        handshake(added, r),
        added.len() >= 2,
        added[1] == Exchange::Line(Ok(line)),
        !is_continuation(line),
    ensures
        r == Err::<(), Error>(Error::ProtocolViolation),
        added.len() == 2,
        nothing_written(added),
{
}

/// No handshake writes a line, however it ends.
pub proof fn law_handshake_writes_nothing(added: Seq<Exchange>, r: Result<(), Error>)
    requires
        handshake(added, r),
    ensures
        nothing_written(added),
        added.len() <= 2,
{
}

/// Terminating a second time does nothing and succeeds: the two calls together leave the
/// journal as the first one did.
pub proof fn law_second_termination_is_silent(
    done: bool,
    first: Seq<Exchange>,
    r1: Result<(), Error>,
    second: Seq<Exchange>,
    r2: Result<(), Error>,
)
    requires
        terminate_run(done, first, r1),
        terminate_run(true, second, r2),
    ensures
        second.len() == 0,
        r2 is Ok,
        first + second == first,
{
    assert(first + second =~= first);
}

/// Ending an active long wait writes the termination line exactly once, first of all, and
/// whether or not it can be written.
pub proof fn law_termination_sends_done_once(added: Seq<Exchange>, r: Result<(), Error>)
    requires
        termination(added, r),
    ensures
        done_sent_once(added),
        writes_done(added[0]),
        1 <= added.len() <= 3,
{
    assert(writes_done(added[0]));
    assert forall|j: int| 0 <= j < added.len() && writes_done(#[trigger] added[j]) implies j
        == 0 by {
        if j == 1 {
            assert(added[1] is Flush);
        } else if j == 2 {
            assert(added[2] is Response);
        }
    }
}

/// Releasing a handle that is still active writes the termination line exactly once; releasing
/// one that is done does nothing.
pub proof fn law_release_sends_done_once(done: bool, added: Seq<Exchange>)
    requires
        release_run(done, added),
    ensures
        !done ==> done_sent_once(added),
        done ==> added.len() == 0,
{
    if !done {
        let r = choose|r: Result<(), Error>| terminate_run(done, added, r);
        law_termination_sends_done_once(added, r);
    }
}

/// Shifts [`done_sent_once`] over entries in front that write nothing.
proof fn lemma_done_once_after(added: Seq<Exchange>, k: int)
    requires
        0 <= k <= added.len(),
        done_sent_once(added.skip(k)),
        forall|j: int| 0 <= j < k ==> !writes_done(#[trigger] added[j]),
    ensures
        done_sent_once(added),
{
    let rest = added.skip(k);
    let i = choose|i: int|
        {
            &&& 0 <= i < rest.len()
            &&& writes_done(#[trigger] rest[i])
            &&& forall|j: int| 0 <= j < rest.len() && writes_done(#[trigger] rest[j]) ==> j == i
        };
    assert(added[i + k] == rest[i]);
    assert forall|j: int| 0 <= j < added.len() && writes_done(#[trigger] added[j]) implies j == i
        + k by {
        if j >= k {
            assert(rest[j - k] == added[j]);
        }
    }
}

/// An unbounded wait on an active handle writes the termination line exactly once, after the
/// read and however the read ended.
pub proof fn law_wait_sends_done_once(added: Seq<Exchange>, r: Result<bool, Error>)
    requires
        wait_run(false, added, r),
    ensures
        done_sent_once(added),
        added[0] is Line,
{
    assert(added.take(1)[0] == added[0]);
    law_release_sends_done_once(false, added.skip(1));
    lemma_done_once_after(added, 1);
}

/// A bounded wait on an active handle writes the termination line exactly once, whatever
/// reading the deadline gave and whatever the wait returns.
pub proof fn law_wait_timeout_sends_done_once(
    found: Result<Option<Duration>, Error>,
    timeout: Duration,
    added: Seq<Exchange>,
    r: Result<bool, Error>,
)
    requires
        wait_timeout_found_run(false, found, timeout, added, r),
    ensures
        done_sent_once(added),
{
    if found is Err {
        law_release_sends_done_once(false, added);
    } else {
        let rest = added.skip(1);
        assert(rest.len() == added.len() - 1);
        if added[0] matches Exchange::Deadline(_, Err(_)) {
            law_release_sends_done_once(false, rest);
            lemma_done_once_after(added, 1);
        } else {
            assert(rest[0] == added[1]);
            let got = rest[0]->Line_0;
            let tail = if got is Err && !got->Err_0.deadline_passed() {
                rest.skip(1)
            } else {
                rest.skip(2)
            };
            if got is Err && !got->Err_0.deadline_passed() {
                assert(added.skip(2) =~= tail);
                law_release_sends_done_once(false, tail);
                lemma_done_once_after(added, 2);
            } else {
                assert(rest[1] == added[2]);
                assert(added.skip(3) =~= tail);
                if got is Err && rest[1] matches Exchange::Deadline(_, Ok(_)) {
                    let t = choose|t: Result<(), Error>| #[trigger] terminate_run(false, tail, t);
                    law_termination_sends_done_once(tail, t);
                } else {
                    law_release_sends_done_once(false, tail);
                }
                lemma_done_once_after(added, 3);
            }
        }
    }
}

/// Where the configured deadline could not be read, a bounded wait returns that failure,
/// installs no deadline and reads no line.
pub proof fn law_unread_deadline_ends_the_wait(
    done: bool,
    e: Error,
    timeout: Duration,
    added: Seq<Exchange>,
    r: Result<bool, Error>,
)
    requires
        wait_timeout_found_run(done, Err(e), timeout, added, r),
    ensures
        r == Err::<bool, Error>(e),
        forall|j: int|
            0 <= j < added.len() ==> !(#[trigger] added[j] is Deadline) && !(added[j] is Line),
{
    if !done {
        let t = choose|t: Result<(), Error>| terminate_run(done, added, t);
        assert(termination(added, t));
    }
}

/// Where the configured deadline was read, a bounded wait begins by installing `timeout`. If
/// the transport refuses, that failure is returned and no line is read.
pub proof fn law_refused_timeout_ends_the_wait(
    done: bool,
    saved: Option<Duration>,
    timeout: Duration,
    added: Seq<Exchange>,
    r: Result<bool, Error>,
)
    requires
        wait_timeout_found_run(done, Ok(saved), timeout, added, r),
    ensures
        added.len() >= 1,
        added[0] matches Exchange::Deadline(t, _) && t == Some(timeout),
        added[0] matches Exchange::Deadline(_, Err(e)) ==> r == Err::<bool, Error>(e) && forall|
            j: int,
        | 0 <= j < added.len() ==> !(#[trigger] added[j] is Line),
{
    if added[0] matches Exchange::Deadline(_, Err(e)) {
        let rest = added.skip(1);
        assert forall|j: int| 0 <= j < added.len() implies !(#[trigger] added[j] is Line) by {
            if j >= 1 {
                assert(rest[j - 1] == added[j]);
                if !done {
                    let t = choose|t: Result<(), Error>| terminate_run(done, rest, t);
                    assert(termination(rest, t));
                }
            }
        }
    }
}

/// Where the configured deadline was read and `timeout` installed, a bounded wait reads exactly
/// one line, directly after: no other entry is a read of a line. A failure of that read that is
/// no passed deadline is returned as it is, and no deadline is installed after it.
pub proof fn law_bounded_wait_reads_once(
    done: bool,
    saved: Option<Duration>,
    timeout: Duration,
    added: Seq<Exchange>,
    r: Result<bool, Error>,
)
    requires
        wait_timeout_found_run(done, Ok(saved), timeout, added, r),
        added[0] matches Exchange::Deadline(_, Ok(_)),
    ensures
        added.len() >= 2,
        added[1] is Line,
        forall|j: int| 2 <= j < added.len() ==> !(#[trigger] added[j] is Line),
        added[1] matches Exchange::Line(Err(e)) ==> !e.deadline_passed() ==> r == Err::<
            bool,
            Error,
        >(e) && forall|j: int| 2 <= j < added.len() ==> !(#[trigger] added[j] is Deadline),
{
    let rest = added.skip(1);
    assert(rest[0] == added[1]);
    let hard = rest[0] matches Exchange::Line(Err(e)) && !e.deadline_passed();
    let k: int = if hard {
        1
    } else {
        2
    };
    let tail = rest.skip(k);
    if !hard {
        assert(rest[1] == added[2]);
    }
    assert forall|j: int| 2 <= j < added.len() implies !(#[trigger] added[j] is Line) && (hard
        ==> !(added[j] is Deadline)) by {
        if j >= k + 1 {
            assert(tail[j - k - 1] == added[j]);
            if !done {
                let t = choose|t: Result<(), Error>| #[trigger] terminate_run(done, tail, t);
                assert(termination(tail, t));
            }
        }
    }
}

/// A bounded wait that returns `true` installed `timeout`, read a line under it, and put the
/// deadline that was found back before anything else: no deadline is installed after that.
pub proof fn law_news_puts_deadline_back(
    done: bool,
    found: Result<Option<Duration>, Error>,
    timeout: Duration,
    added: Seq<Exchange>,
)
    requires
        wait_timeout_found_run(done, found, timeout, added, Ok(true)),
    ensures
        found is Ok,
        added.len() >= 3,
        added[0] matches Exchange::Deadline(t, Ok(_)) && t == Some(timeout),
        added[1] matches Exchange::Line(Ok(_)),
        added[2] matches Exchange::Deadline(t, Ok(_)) && t == found->Ok_0,
        forall|j: int| 3 <= j < added.len() ==> !(#[trigger] added[j] is Deadline),
{
    let rest = added.skip(1);
    assert(rest[0] == added[1]);
    assert(rest[1] == added[2]);
    let tail = rest.skip(2);
    assert(added.skip(3) =~= tail);
    assert forall|j: int| 3 <= j < added.len() implies !(#[trigger] added[j] is Deadline) by {
        assert(tail[j - 3] == added[j]);
        if !done {
            let t = choose|t: Result<(), Error>| terminate_run(done, tail, t);
            assert(termination(tail, t));
        }
    }
}

/// A bounded wait returns `true` whenever the configured deadline was read, `timeout` was
/// installed, a line arrived, and the transport took the deadline back.
pub proof fn law_news_returns_true(
    done: bool,
    saved: Option<Duration>,
    timeout: Duration,
    added: Seq<Exchange>,
    r: Result<bool, Error>,
)
    requires
        wait_timeout_found_run(done, Ok(saved), timeout, added, r),
        added.len() >= 3,
        added[0] matches Exchange::Deadline(_, Ok(_)),
        added[1] matches Exchange::Line(Ok(_)),
        added[2] matches Exchange::Deadline(_, Ok(_)),
    ensures
        r == Ok::<bool, Error>(true),
        added[2] matches Exchange::Deadline(t, _) && t == saved,
{
    let rest = added.skip(1);
    assert(rest[0] == added[1]);
    assert(rest[1] == added[2]);
}

/// A bounded wait on an active handle returns `false` whenever the configured deadline was
/// read, `timeout` was installed, the read ended because the deadline passed, and the four
/// calls after it succeeded.
pub proof fn law_silence_returns_false(
    saved: Option<Duration>,
    timeout: Duration,
    added: Seq<Exchange>,
    r: Result<bool, Error>,
)
    requires
        wait_timeout_found_run(false, Ok(saved), timeout, added, r),
        added.len() >= 6,
        added[0] matches Exchange::Deadline(_, Ok(_)),
        added[1] matches Exchange::Line(Err(e)) && e.deadline_passed(),
        added[2] matches Exchange::Deadline(_, Ok(_)),
        added[3] matches Exchange::Write(_, Ok(_)),
        added[4] matches Exchange::Flush(Ok(_)),
        added[5] matches Exchange::Response(Ok(_)),
    ensures
        r == Ok::<bool, Error>(false),
        added.len() == 6,
        added[2] matches Exchange::Deadline(t, _) && t == Some(drain_deadline()),
{
    let rest = added.skip(1);
    assert(rest[0] == added[1]);
    assert(rest[1] == added[2]);
    let tail = rest.skip(2);
    assert(tail[0] == added[3]);
    assert(tail[1] == added[4]);
    assert(tail[2] == added[5]);
}

/// A bounded wait on an active handle that returns `false` made exactly these six calls, each
/// of which succeeded but the read, whose deadline passed: it installed `timeout`, read,
/// installed the drain deadline, wrote the termination line, flushed, and read the response.
/// The deadline that was found was not put back.
pub proof fn law_silence_ends_the_wait(
    found: Result<Option<Duration>, Error>,
    timeout: Duration,
    added: Seq<Exchange>,
)
    requires
        wait_timeout_found_run(false, found, timeout, added, Ok(false)),
    ensures
        found is Ok,
        added.len() == 6,
        added[0] matches Exchange::Deadline(t, Ok(_)) && t == Some(timeout),
        added[1] matches Exchange::Line(Err(e)) && e.deadline_passed(),
        added[2] matches Exchange::Deadline(t, Ok(_)) && t == Some(drain_deadline()),
        added[3] matches Exchange::Write(line, Ok(_)) && line == done_line(),
        added[4] matches Exchange::Flush(Ok(_)),
        added[5] matches Exchange::Response(Ok(_)),
        done_sent_once(added),
{
    law_wait_timeout_sends_done_once(found, timeout, added, Ok(false));
    let rest = added.skip(1);
    assert(rest[0] == added[1]);
    assert(rest[1] == added[2]);
    let tail = rest.skip(2);
    assert(added.skip(3) =~= tail);
    let t = choose|t: Result<(), Error>| #[trigger] terminate_run(false, tail, t) && t is Ok;
    assert(tail[0] == added[3]);
    assert(tail[1] == added[4]);
    assert(tail[2] == added[5]);
}

/// The calls of a handshake and their outcomes determine what it returns.
pub proof fn law_handshake_is_determined(
    added: Seq<Exchange>,
    r1: Result<(), Error>,
    r2: Result<(), Error>,
)
    requires
        handshake(added, r1),
        handshake(added, r2),
    ensures
        r1 == r2,
{
}

/// The calls of a termination and their outcomes determine what it returns.
pub proof fn law_termination_is_determined(
    done: bool,
    added: Seq<Exchange>,
    r1: Result<(), Error>,
    r2: Result<(), Error>,
)
    requires
        terminate_run(done, added, r1),
        terminate_run(done, added, r2),
    ensures
        r1 == r2,
{
}

/// The calls of an unbounded wait and their outcomes determine what it returns.
pub proof fn law_wait_is_determined(
    done: bool,
    added: Seq<Exchange>,
    r1: Result<bool, Error>,
    r2: Result<bool, Error>,
)
    requires
        wait_run(done, added, r1),
        wait_run(done, added, r2),
    ensures
        r1 == r2,
{
    assert(added.take(1)[0] == added[0]);
}

/// What reading the configured deadline gave, and the calls of a bounded wait with their
/// outcomes, determine what the wait returns.
pub proof fn law_wait_timeout_is_determined(
    done: bool,
    found: Result<Option<Duration>, Error>,
    timeout: Duration,
    added: Seq<Exchange>,
    r1: Result<bool, Error>,
    r2: Result<bool, Error>,
)
    requires
        wait_timeout_found_run(done, found, timeout, added, r1),
        wait_timeout_found_run(done, found, timeout, added, r2),
    ensures
        r1 == r2,
{
    if found is Ok && added[0] matches Exchange::Deadline(_, Ok(_)) {
        let rest = added.skip(1);
        if rest[0] matches Exchange::Line(Err(e)) && e.deadline_passed() && rest.len() >= 2
            && rest[1] matches Exchange::Deadline(_, Ok(_)) {
            let tail = rest.skip(2);
            let t1 = choose|t: Result<(), Error>|
                {
                    &&& #[trigger] terminate_run(done, tail, t)
                    &&& r1 == match t {
                        Ok(_) => Ok::<bool, Error>(false),
                        Err(e3) => Err(e3),
                    }
                };
            let t2 = choose|t: Result<(), Error>|
                {
                    &&& #[trigger] terminate_run(done, tail, t)
                    &&& r2 == match t {
                        Ok(_) => Ok::<bool, Error>(false),
                        Err(e3) => Err(e3),
                    }
                };
            law_termination_is_determined(done, tail, t1, t2);
        }
    }
}

} // verus!
