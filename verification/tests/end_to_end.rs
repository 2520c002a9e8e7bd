use imap_idle::scripted::{Record, Reply, ScriptedSession};
use imap_idle::{Error, Handle, IoKind, Session, SetReadTimeout};
use std::time::Duration;

fn line(text: &str) -> Reply {
    Reply::Line(text.as_bytes().to_vec())
}

fn done_writes(log: &Vec<Record>) -> usize {
    log.iter()
        .filter(|record| matches!(record, Record::Write(bytes, _) if bytes.as_slice() == b"DONE"))
        .count()
}

#[test]
fn continuation_admits_the_wait() {
    let mut session = ScriptedSession::new(vec![Reply::Accept, line("+ idling\r\n")]);
    let made = Handle::make(&mut session);
    assert!(made.is_ok());
    drop(made);
    assert_eq!(
        session.log(),
        &vec![
            Record::Command("IDLE".to_string(), Ok(())),
            Record::Line(Ok(b"+ idling\r\n".to_vec())),
        ]
    );
}

#[test]
fn pushed_line_ends_the_wait() {
    let mut session = ScriptedSession::new(vec![
        Reply::Accept,
        line("+ idling\r\n"),
        line("* 1 EXISTS\r\n"),
        Reply::Accept,
        Reply::Accept,
        line("a1 OK IDLE terminated\r\n"),
    ]);
    let handle = Handle::make(&mut session).unwrap();
    assert_eq!(handle.wait(), Ok(true));
    assert_eq!(done_writes(session.log()), 1);
    assert_eq!(session.remaining(), 0);
}

#[test]
fn two_seconds_of_silence_end_the_wait_with_done() {
    let mut session = ScriptedSession::new(vec![
        Reply::Accept,
        line("+ idling\r\n"),
        Reply::Accept,
        Reply::Fail(Error::Io(IoKind::TimedOut)),
        Reply::Accept,
        Reply::Accept,
        Reply::Accept,
        line("a1 OK IDLE terminated\r\n"),
    ]);
    let handle = Handle::make(&mut session).unwrap();
    assert_eq!(handle.wait_timeout(Duration::from_secs(2)), Ok(false));
    assert_eq!(
        session.log(),
        &vec![
            Record::Command("IDLE".to_string(), Ok(())),
            Record::Line(Ok(b"+ idling\r\n".to_vec())),
            Record::Deadline(Some(Duration::from_secs(2)), Ok(())),
            Record::Line(Err(Error::Io(IoKind::TimedOut))),
            Record::Deadline(Some(Duration::from_secs(60)), Ok(())),
            Record::Write(b"DONE".to_vec(), Ok(())),
            Record::Flush(Ok(())),
            Record::Response(Ok(b"a1 OK IDLE terminated\r\n".to_vec())),
        ]
    );
    assert_eq!(session.deadline(), Some(Duration::from_secs(60)));
}

#[test]
fn tagged_bad_is_a_protocol_violation() {
    let mut session = ScriptedSession::new(vec![
        Reply::Accept,
        line("a1 BAD unknown command\r\n"),
        Reply::Accept,
        Reply::Accept,
        Reply::Accept,
    ]);
    let made = Handle::make(&mut session);
    assert!(matches!(made, Err(Error::ProtocolViolation)));
    drop(made);
    assert_eq!(session.log().len(), 2);
    assert_eq!(done_writes(session.log()), 0);
    assert_eq!(session.remaining(), 3);
}

/// A session written outside the library: it counts the calls and answers each read with a
/// fixed line.
struct Counting {
    calls: usize,
    deadline: Option<Duration>,
}

impl Session for Counting {
    fn run_command(&mut self, _command: &str) -> Result<(), Error> {
        self.calls += 1;
        Ok(())
    }

    fn readline(&mut self, into: &mut Vec<u8>) -> Result<usize, Error> {
        self.calls += 1;
        into.extend_from_slice(b"+ go\r\n");
        Ok(6)
    }

    fn read_response(&mut self) -> Result<Vec<u8>, Error> {
        self.calls += 1;
        Ok(b"a1 OK\r\n".to_vec())
    }

    fn write_line(&mut self, _line: &[u8]) -> Result<(), Error> {
        self.calls += 1;
        Ok(())
    }

    fn flush(&mut self) -> Result<(), Error> {
        self.calls += 1;
        Ok(())
    }
}

impl SetReadTimeout for Counting {
    fn set_read_timeout(&mut self, timeout: Option<Duration>) -> Result<(), Error> {
        self.calls += 1;
        self.deadline = timeout;
        Ok(())
    }

    fn read_timeout(&self) -> Result<Option<Duration>, Error> {
        Ok(self.deadline)
    }
}

#[test]
fn a_session_of_the_callers_own_can_be_waited_on() {
    let mut session = Counting { calls: 0, deadline: Some(Duration::from_secs(5)) };
    let handle = Handle::make(&mut session).unwrap();
    assert_eq!(handle.wait_keepalive(), Ok(true));
    // IDLE, greeting, install, read, put back, DONE, flush, response
    assert_eq!(session.calls, 8);
    assert_eq!(session.deadline, Some(Duration::from_secs(5)));
}
