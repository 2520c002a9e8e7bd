//! The handle on an active long wait.

use crate::error::Error;
use crate::session::{Exchange, Session, SetReadTimeout};
use crate::laws::{
    law_handshake_writes_nothing, law_release_sends_done_once, law_wait_sends_done_once,
    law_wait_timeout_sends_done_once,
};
use crate::trace::{
    appended, arrived, done_sent_once, drained, handshake, lemma_appended_push,
    lemma_appended_twice, nothing_written, release_run, terminate_run, wait_run,
    wait_timeout_found_run, watch, watch_bounded,
};
use crate::wire::{
    default_keepalive, done_bytes, drain_deadline, starts_continuation, DRAIN_SECS,
    KEEPALIVE_SECS,
};
use std::time::Duration;
use vstd::prelude::*;

verus! {

/// `Handle` lets a client block until the selected mailbox changes.
///
/// The handle holds the session exclusively from the entry handshake until it is released, so
/// the mailbox cannot be reached otherwise while the long wait is active. A server may log out
/// a client that idles for too long, so a client is advised to end the long wait and enter it
/// again at least every 29 minutes; [`Handle::wait_keepalive`] returns `false` when that is due.
#[derive(Debug)]
pub struct Handle<'a, S: Session> {
    session: &'a mut S,
    keepalive: Duration,
    done: bool,
    old_timeout: Option<Duration>,
}

impl<'a, S: Session> Handle<'a, S> {
    /// The borrowed session; `final` of it is the session as the handle leaves it.
    pub closed spec fn session(self) -> &'a mut S {
        self.session
    }

    /// The keepalive interval that [`Handle::wait_keepalive`] waits for.
    pub closed spec fn keepalive(self) -> Duration {
        self.keepalive
    }

    /// Whether the long wait has been ended, so that terminating does nothing.
    pub closed spec fn is_done(self) -> bool {
        self.done
    }

    /// The read deadline that a bounded wait found configured, until it is put back.
    pub closed spec fn saved_timeout(self) -> Option<Duration> {
        self.old_timeout
    }

    /// The journal of the borrowed session as it stands.
    pub open spec fn journal(self) -> Seq<Exchange> {
        self.session().journal()
    }

    /// The read deadline configured on the borrowed session as it stands.
    pub open spec fn read_deadline(self) -> Option<Duration> {
        self.session().read_deadline()
    }

    /// Whether `self` can be `before` after some calls on its session: the journal has only
    /// grown, and the keepalive interval is as it was.
    pub open spec fn follows(self, before: Self) -> bool {
        &&& self.keepalive() == before.keepalive()
        &&& before.journal().is_prefix_of(self.journal())
    }

    /// Enters the long wait on `session` and returns the handle on it.
    ///
    /// Succeeds exactly when the entry command was sent and answered by a continuation request.
    /// The new handle is active, with the default keepalive interval. On failure nothing follows
    /// the call that failed or the line that was rejected: the long wait is not terminated,
    /// because it never began.
    pub fn make(session: &'a mut S) -> (r: Result<Self, Error>)
        ensures
            match r {
                Ok(h) => {
                    &&& *final(h.session()) == *final(session)
                    &&& old(session).journal().is_prefix_of(h.journal())
                    &&& handshake(appended(old(session).journal(), h.journal()), Ok(()))
                    &&& h.read_deadline() == old(session).read_deadline()
                    &&& !h.is_done()
                    &&& h.keepalive() == default_keepalive()
                    &&& h.saved_timeout() is None
                },
                Err(e) => {
                    &&& old(session).journal().is_prefix_of(final(session).journal())
                    &&& handshake(
                        appended(old(session).journal(), final(session).journal()),
                        Err(e),
                    )
                    &&& final(session).read_deadline() == old(session).read_deadline()
                    &&& nothing_written(
                        appended(old(session).journal(), final(session).journal()),
                    )
                },
            },
    {
        let ghost j0 = session.journal();
        let mut h = Handle {
            session,
            keepalive: Duration::from_secs(KEEPALIVE_SECS),
            done: false,
            old_timeout: None,
        };
        match h.init() {
            Ok(()) => Ok(h),
            Err(e) => {
                proof {
                    law_handshake_writes_nothing(appended(j0, h.journal()), Err(e));
                }
                Err(e)
            },
        }
    }

    /// Performs the entry handshake: sends the entry command, reads one line, and accepts it
    /// only if it is a continuation request.
    pub fn init(&mut self) -> (r: Result<(), Error>)
        ensures
            *final(final(self).session()) == *final(old(self).session()),
            final(self).follows(*old(self)),
            handshake(appended(old(self).journal(), final(self).journal()), r),
            final(self).read_deadline() == old(self).read_deadline(),
            final(self).is_done() == (old(self).is_done() && r is Err),
            final(self).saved_timeout() == old(self).saved_timeout(),
    {
        let ghost j0 = self.session.journal();
        let sent = self.session.run_command("IDLE");
        let ghost j1 = self.session.journal();
        proof {
            lemma_appended_push(j0, Exchange::Command("IDLE"@, sent));
        }
        match sent {
            Ok(()) => {},
            Err(e) => {
                return Err(e);
            },
        }
        let mut v: Vec<u8> = Vec::new();
        let got = self.session.readline(&mut v);
        proof {
            lemma_appended_push(j1, j1.push(
                Exchange::Line(
                    match got {
                        Ok(_) => Ok(v@),
                        Err(e) => Err(e),
                    },
                ),
            ).last());
            lemma_appended_twice(j0, j1, self.session.journal());
        }
        match got {
            Ok(_) => {},
            Err(e) => {
                return Err(e);
            },
        }
        if starts_continuation(&v) {
            self.done = false;
            Ok(())
        } else {
            Err(Error::ProtocolViolation)
        }
    }

    /// Ends the long wait. Once the handle is done this does nothing and succeeds. Otherwise the
    /// handle is marked done at once, so that no failure makes a later call try again; then
    /// `DONE` is written, the outbound buffer is flushed, and one tagged response is read and
    /// discarded. The first failure among these is returned.
    pub fn terminate(&mut self) -> (r: Result<(), Error>)
        ensures
            *final(final(self).session()) == *final(old(self).session()),
            final(self).follows(*old(self)),
            terminate_run(
                old(self).is_done(),
                appended(old(self).journal(), final(self).journal()),
                r,
            ),
            old(self).is_done() ==> *final(self).session() == *old(self).session(),
            final(self).read_deadline() == old(self).read_deadline(),
            final(self).is_done(),
            final(self).saved_timeout() == old(self).saved_timeout(),
    {
        if self.done {
            assert(appended(self.journal(), self.journal()) =~= Seq::<Exchange>::empty());
            return Ok(());
        }
        self.done = true;
        let ghost j0 = self.session.journal();
        let line = done_bytes();
        let wrote = self.session.write_line(line.as_slice());
        let ghost j1 = self.session.journal();
        proof {
            lemma_appended_push(j0, Exchange::Write(line@, wrote));
        }
        match wrote {
            Ok(()) => {},
            Err(e) => {
                return Err(e);
            },
        }
        let flushed = self.session.flush();
        let ghost j2 = self.session.journal();
        proof {
            lemma_appended_push(j1, Exchange::Flush(flushed));
            lemma_appended_twice(j0, j1, j2);
        }
        match flushed {
            Ok(()) => {},
            Err(e) => {
                return Err(e);
            },
        }
        let got = self.session.read_response();
        proof {
            lemma_appended_push(j2, self.session.journal().last());
            lemma_appended_twice(j0, j2, self.session.journal());
        }
        match got {
            Ok(_) => Ok(()),
            Err(e) => Err(e),
        }
    }

    /// Gives the session back: the long wait is ended as by [`Handle::terminate`], and a failure
    /// to do so is not reported, for nobody is left to hear of it.
    pub fn release(self)
        ensures
            self.journal().is_prefix_of(final(self.session()).journal()),
            release_run(
                self.is_done(),
                appended(self.journal(), final(self.session()).journal()),
            ),
            !self.is_done() ==> done_sent_once(
                appended(self.journal(), final(self.session()).journal()),
            ),
            self.is_done() ==> *final(self.session()) == *self.session(),
            final(self.session()).read_deadline() == self.read_deadline(),
    {
        let mut h = self;
        let ghost j0 = h.journal();
        let _ = h.terminate();
        proof {
            law_release_sends_done_once(self.is_done(), appended(j0, h.journal()));
        }
    }

    /// Blocks on one raw line, under whatever read deadline is configured. A line that arrives is
    /// news of the mailbox, whatever it says; a failure of the read is returned as it is.
    fn wait_inner(&mut self) -> (r: Result<bool, Error>)
        ensures
            *final(final(self).session()) == *final(old(self).session()),
            final(self).follows(*old(self)),
            watch(appended(old(self).journal(), final(self).journal()), r),
            final(self).read_deadline() == old(self).read_deadline(),
            final(self).is_done() == old(self).is_done(),
            final(self).saved_timeout() == old(self).saved_timeout(),
    {
        let ghost j0 = self.session.journal();
        let mut v: Vec<u8> = Vec::new();
        let got = self.session.readline(&mut v);
        proof {
            lemma_appended_push(j0, self.session.journal().last());
        }
        match got {
            Ok(_) => Ok(true),
            Err(e) => Err(e),
        }
    }

    /// Blocks until the selected mailbox changes.
    ///
    /// No read deadline is installed, so this returns only when a line arrives (`Ok(true)`) or
    /// the read fails. Either way the handle is then released.
    pub fn wait(self) -> (r: Result<bool, Error>)
        ensures
            self.journal().is_prefix_of(final(self.session()).journal()),
            wait_run(self.is_done(), appended(self.journal(), final(self.session()).journal()), r),
            !self.is_done() ==> done_sent_once(
                appended(self.journal(), final(self.session()).journal()),
            ),
            final(self.session()).read_deadline() == self.read_deadline(),
    {
        let mut h = self;
        let ghost j0 = h.journal();
        let r = h.wait_inner();
        let ghost j1 = h.journal();
        let _ = h.terminate();
        proof {
            lemma_appended_twice(j0, j1, h.journal());
            if !self.is_done() {
                law_wait_sends_done_once(appended(j0, h.journal()), r);
            }
        }
        r
    }
}

impl<'a, S: SetReadTimeout> Handle<'a, S> {
    /// What reading the configured deadline gives on the borrowed session as it stands.
    pub open spec fn timeout_reading(self) -> Result<Option<Duration>, Error> {
        self.session().timeout_reading()
    }

    /// Sets the keepalive interval that [`Handle::wait_keepalive`] waits for.
    ///
    /// The interval is 29 minutes unless this is called. The session is not touched.
    pub fn set_keepalive(&mut self, interval: Duration)
        ensures
            *final(final(self).session()) == *final(old(self).session()),
            *final(self).session() == *old(self).session(),
            final(self).keepalive() == interval,
            final(self).is_done() == old(self).is_done(),
            final(self).saved_timeout() == old(self).saved_timeout(),
    {
        self.keepalive = interval;
    }

    /// Blocks until the selected mailbox changes or the keepalive interval has passed: the same
    /// as [`Handle::wait_timeout`] with the keepalive interval.
    ///
    /// This is the wait to use ordinarily: `Ok(false)` says that the interval passed in silence
    /// and the long wait was ended, so a client that wants to go on makes a new handle, which
    /// keeps the server from counting the connection as inactive.
    ///
    /// This reads the configured deadline and goes on as [`Handle::wait_keepalive_found`] does
    /// with what the reading gave.
    pub fn wait_keepalive(self) -> (r: Result<bool, Error>)
        ensures
            self.journal().is_prefix_of(final(self.session()).journal()),
            wait_timeout_found_run(
                self.is_done(),
                self.timeout_reading(),
                self.keepalive(),
                appended(self.journal(), final(self.session()).journal()),
                r,
            ),
            !self.is_done() ==> done_sent_once(
                appended(self.journal(), final(self.session()).journal()),
            ),
            self.timeout_reading() matches Ok(saved) ==> saved == self.read_deadline(),
            self.timeout_reading() is Err ==> final(self.session()).read_deadline()
                == self.read_deadline(),
            r == Ok::<bool, Error>(true) ==> final(self.session()).read_deadline()
                == self.read_deadline(),
            r == Ok::<bool, Error>(false) ==> final(self.session()).read_deadline() == Some(
                drain_deadline(),
            ),
    {
        let keepalive = self.keepalive;
        self.wait_timeout(keepalive)
    }

    /// The bounded wait of [`Handle::wait_keepalive`] from the point at which the configured
    /// deadline has been read: the same as [`Handle::wait_timeout_found`] with the keepalive
    /// interval.
    pub fn wait_keepalive_found(self, found: Result<Option<Duration>, Error>) -> (r: Result<
        bool,
        Error,
    >)
        ensures
            self.journal().is_prefix_of(final(self.session()).journal()),
            wait_timeout_found_run(
                self.is_done(),
                found,
                self.keepalive(),
                appended(self.journal(), final(self.session()).journal()),
                r,
            ),
            !self.is_done() ==> done_sent_once(
                appended(self.journal(), final(self.session()).journal()),
            ),
            found is Err ==> final(self.session()).read_deadline() == self.read_deadline(),
            r == Ok::<bool, Error>(true) ==> found is Ok,
            r == Ok::<bool, Error>(true) ==> final(self.session()).read_deadline()
                == found->Ok_0,
            r == Ok::<bool, Error>(false) ==> final(self.session()).read_deadline() == Some(
                drain_deadline(),
            ),
    {
        let keepalive = self.keepalive;
        self.wait_timeout_found(found, keepalive)
    }

    /// Blocks until the selected mailbox changes or `timeout` has passed.
    ///
    /// The read deadline that is configured is saved and `timeout` installed in its place. Then
    /// one line is awaited. `Ok(true)` says that a line arrived and the saved deadline is in
    /// force again. `Ok(false)` says that `timeout` passed in silence and that the long wait was
    /// ended under the drain deadline of 60 seconds, which stays configured. In every case the
    /// handle is released before this returns.
    ///
    /// This reads the configured deadline and goes on as [`Handle::wait_timeout_found`] does
    /// with what the reading gave.
    pub fn wait_timeout(self, timeout: Duration) -> (r: Result<bool, Error>)
        ensures
            self.journal().is_prefix_of(final(self.session()).journal()),
            wait_timeout_found_run(
                self.is_done(),
                self.timeout_reading(),
                timeout,
                appended(self.journal(), final(self.session()).journal()),
                r,
            ),
            !self.is_done() ==> done_sent_once(
                appended(self.journal(), final(self.session()).journal()),
            ),
            self.timeout_reading() matches Ok(saved) ==> saved == self.read_deadline(),
            self.timeout_reading() is Err ==> final(self.session()).read_deadline()
                == self.read_deadline(),
            r == Ok::<bool, Error>(true) ==> final(self.session()).read_deadline()
                == self.read_deadline(),
            r == Ok::<bool, Error>(false) ==> final(self.session()).read_deadline() == Some(
                drain_deadline(),
            ),
    {
        let found = self.session.read_timeout();
        self.wait_timeout_found(found, timeout)
    }

    /// The bounded wait from the point at which the configured deadline has been read, with
    /// `found` as what the reading gave.
    ///
    /// - `found` is a failure: it is returned. No deadline is installed and no line is read.
    /// - `found` is the deadline that was configured: it is saved and `timeout` is installed. If
    ///   the transport refuses, its failure is returned and no line is read. Otherwise one line
    ///   is awaited: `Ok(true)` if it arrived and the saved deadline was put back; `Ok(false)` if
    ///   the deadline passed and the long wait was ended under the drain deadline; the failure
    ///   of the read, or of what followed it, else.
    /// In every case the handle is released before this returns.
    pub fn wait_timeout_found(
        self,
        found: Result<Option<Duration>, Error>,
        timeout: Duration,
    ) -> (r: Result<bool, Error>)
        ensures
            self.journal().is_prefix_of(final(self.session()).journal()),
            wait_timeout_found_run(
                self.is_done(),
                found,
                timeout,
                appended(self.journal(), final(self.session()).journal()),
                r,
            ),
            !self.is_done() ==> done_sent_once(
                appended(self.journal(), final(self.session()).journal()),
            ),
            found is Err ==> final(self.session()).read_deadline() == self.read_deadline(),
            r == Ok::<bool, Error>(true) ==> found is Ok,
            r == Ok::<bool, Error>(true) ==> final(self.session()).read_deadline()
                == found->Ok_0,
            r == Ok::<bool, Error>(false) ==> final(self.session()).read_deadline() == Some(
                drain_deadline(),
            ),
    {
        let mut h = self;
        let ghost j0 = h.journal();
        match found {
            Ok(saved) => {
                h.old_timeout = saved;
            },
            Err(e) => {
                let _ = h.terminate();
                proof {
                    if !self.is_done() {
                        law_wait_timeout_sends_done_once(
                            found,
                            timeout,
                            appended(j0, h.journal()),
                            Err(e),
                        );
                    }
                }
                return Err(e);
            },
        }
        let installed = h.session.set_read_timeout(Some(timeout));
        let ghost j1 = h.journal();
        proof {
            lemma_appended_push(j0, Exchange::Deadline(Some(timeout), installed));
        }
        match installed {
            Ok(()) => {},
            Err(e) => {
                let _ = h.terminate();
                proof {
                    lemma_appended_twice(j0, j1, h.journal());
                    if !self.is_done() {
                        law_wait_timeout_sends_done_once(
                            found,
                            timeout,
                            appended(j0, h.journal()),
                            Err(e),
                        );
                    }
                }
                return Err(e);
            },
        }
        let r = h.wait_inner_keepalive();
        let ghost j2 = h.journal();
        let _ = h.terminate();
        proof {
            lemma_appended_twice(j1, j2, h.journal());
            lemma_appended_twice(j0, j1, h.journal());
            if !self.is_done() {
                law_wait_timeout_sends_done_once(found, timeout, appended(j0, h.journal()), r);
            }
        }
        r
    }

    /// Awaits one line under the deadline that [`Handle::wait_timeout`] installed.
    ///
    /// A line that arrives is news: the saved deadline is put back and `true` returned. A read
    /// that ends because the deadline passed is no failure: the drain deadline of 60 seconds is
    /// installed, long enough for the acknowledgement of `DONE` and short enough to notice a
    /// dead connection, the long wait is ended, and `false` returned. Any other failure of the
    /// read is returned as it is, and nothing else is done.
    fn wait_inner_keepalive(&mut self) -> (r: Result<bool, Error>)
        ensures
            *final(final(self).session()) == *final(old(self).session()),
            final(self).follows(*old(self)),
            watch_bounded(
                old(self).is_done(),
                old(self).saved_timeout(),
                appended(old(self).journal(), final(self).journal()),
                r,
            ),
            final(self).is_done() == (old(self).is_done() || drained(
                appended(old(self).journal(), final(self).journal()),
            )),
            final(self).saved_timeout() == if arrived(
                appended(old(self).journal(), final(self).journal()),
            ) {
                None
            } else {
                old(self).saved_timeout()
            },
            r == Ok::<bool, Error>(true) ==> final(self).read_deadline() == old(
                self,
            ).saved_timeout(),
            r == Ok::<bool, Error>(false) ==> final(self).read_deadline() == Some(
                drain_deadline(),
            ),
    {
        let ghost j0 = self.session.journal();
        let mut v: Vec<u8> = Vec::new();
        let got = self.session.readline(&mut v);
        let ghost j1 = self.session.journal();
        proof {
            lemma_appended_push(j0, j1.last());
        }
        match got {
            Ok(_) => {
                let put_back = self.restore_timeout();
                proof {
                    lemma_appended_twice(j0, j1, self.session.journal());
                }
                match put_back {
                    Ok(()) => Ok(true),
                    Err(e) => Err(e),
                }
            },
            Err(e) => {
                if e.is_timeout() {
                    let installed = self.session.set_read_timeout(
                        Some(Duration::from_secs(DRAIN_SECS)),
                    );
                    let ghost j2 = self.session.journal();
                    proof {
                        lemma_appended_push(j1, j2.last());
                        lemma_appended_twice(j0, j1, j2);
                    }
                    match installed {
                        Ok(()) => {},
                        Err(e2) => {
                            return Err(e2);
                        },
                    }
                    let ended = self.terminate();
                    proof {
                        lemma_appended_twice(j0, j2, self.session.journal());
                    }
                    match ended {
                        Ok(()) => Ok(false),
                        Err(e3) => Err(e3),
                    }
                } else {
                    Err(e)
                }
            },
        }
    }

    /// Puts back the read deadline that [`Handle::wait_timeout`] saved, and forgets it.
    pub fn restore_timeout(&mut self) -> (r: Result<(), Error>)
        ensures
            *final(final(self).session()) == *final(old(self).session()),
            final(self).follows(*old(self)),
            appended(old(self).journal(), final(self).journal()) == seq![
                Exchange::Deadline(old(self).saved_timeout(), r),
            ],
            r is Ok ==> final(self).read_deadline() == old(self).saved_timeout(),
            final(self).is_done() == old(self).is_done(),
            final(self).saved_timeout() is None,
    {
        let ghost j0 = self.session.journal();
        let saved = self.old_timeout;
        self.old_timeout = None;
        let r = self.session.set_read_timeout(saved);
        proof {
            lemma_appended_push(j0, Exchange::Deadline(saved, r));
        }
        r
    }
}

} // verus!
