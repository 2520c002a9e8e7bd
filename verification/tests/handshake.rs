use imap_idle::scripted::{Record, Reply, ScriptedSession};
use imap_idle::wire::{done_bytes, starts_continuation};
use imap_idle::{Error, Handle, IoKind};

fn reply(text: &str) -> Reply {
    Reply::Line(text.as_bytes().to_vec())
}

fn rejected(greeting: &[u8]) {
    let mut session = ScriptedSession::new(vec![
        Reply::Accept,
        Reply::Line(greeting.to_vec()),
        Reply::Accept,
        Reply::Accept,
        reply("a1 OK\r\n"),
    ]);
    let made = Handle::make(&mut session);
    assert!(matches!(made, Err(Error::ProtocolViolation)));
    drop(made);
    assert_eq!(
        session.log(),
        &vec![
            Record::Command("IDLE".to_string(), Ok(())),
            Record::Line(Ok(greeting.to_vec())),
        ]
    );
    assert_eq!(session.remaining(), 3);
}

#[test]
fn continuation_marker_is_the_first_byte() {
    assert!(starts_continuation(&b"+".to_vec()));
    assert!(starts_continuation(&b"+ idling\r\n".to_vec()));
    assert!(starts_continuation(&b"+\r\n".to_vec()));
    assert!(!starts_continuation(&Vec::new()));
    assert!(!starts_continuation(&b" + idling\r\n".to_vec()));
    assert!(!starts_continuation(&b"a1 BAD\r\n".to_vec()));
    assert!(!starts_continuation(&b"* 1 EXISTS\r\n".to_vec()));
    assert!(!starts_continuation(&b"a+".to_vec()));
}

#[test]
fn termination_line_is_done() {
    assert_eq!(done_bytes(), b"DONE".to_vec());
}

#[test]
fn bare_continuation_marker_admits_the_wait() {
    let mut session = ScriptedSession::new(vec![Reply::Accept, reply("+")]);
    assert!(Handle::make(&mut session).is_ok());
    assert_eq!(session.log().len(), 2);
    assert_eq!(session.remaining(), 0);
}

#[test]
fn making_a_handle_sends_idle_and_reads_one_line() {
    let mut session = ScriptedSession::new(vec![
        Reply::Accept,
        reply("+ waiting\r\n"),
        reply("* 3 EXISTS\r\n"),
    ]);
    let made = Handle::make(&mut session);
    assert!(made.is_ok());
    drop(made);
    assert_eq!(
        session.log(),
        &vec![
            Record::Command("IDLE".to_string(), Ok(())),
            Record::Line(Ok(b"+ waiting\r\n".to_vec())),
        ]
    );
    assert_eq!(session.remaining(), 1);
}

#[test]
fn tagged_no_is_rejected_without_further_calls() {
    rejected(b"a1 NO idling is not allowed\r\n");
}

#[test]
fn untagged_line_is_rejected_without_further_calls() {
    rejected(b"* OK still here\r\n");
}

#[test]
fn empty_line_is_rejected_without_further_calls() {
    rejected(b"");
}

#[test]
fn marker_after_the_first_byte_is_rejected() {
    rejected(b" + idling\r\n");
}

#[test]
fn failing_entry_command_reads_nothing() {
    let mut session = ScriptedSession::new(vec![
        Reply::Fail(Error::Io(IoKind::Other)),
        reply("+ idling\r\n"),
    ]);
    let made = Handle::make(&mut session);
    assert!(matches!(made, Err(Error::Io(IoKind::Other))));
    drop(made);
    assert_eq!(
        session.log(),
        &vec![Record::Command("IDLE".to_string(), Err(Error::Io(IoKind::Other)))]
    );
    assert_eq!(session.remaining(), 1);
}

#[test]
fn failing_greeting_read_is_returned() {
    let mut session = ScriptedSession::new(vec![
        Reply::Accept,
        Reply::Fail(Error::ConnectionLost),
        Reply::Accept,
    ]);
    let made = Handle::make(&mut session);
    assert!(matches!(made, Err(Error::ConnectionLost)));
    drop(made);
    assert_eq!(
        session.log(),
        &vec![
            Record::Command("IDLE".to_string(), Ok(())),
            Record::Line(Err(Error::ConnectionLost)),
        ]
    );
    assert_eq!(session.remaining(), 1);
}

#[test]
fn timed_out_greeting_read_is_a_failure_too() {
    let mut session = ScriptedSession::new(vec![
        Reply::Accept,
        Reply::Fail(Error::Io(IoKind::TimedOut)),
        Reply::Accept,
    ]);
    let made = Handle::make(&mut session);
    assert!(matches!(made, Err(Error::Io(IoKind::TimedOut))));
    drop(made);
    assert_eq!(session.log().len(), 2);
}

#[test]
fn init_on_a_handle_repeats_the_handshake() {
    let mut session = ScriptedSession::new(vec![
        Reply::Accept,
        reply("+ idling\r\n"),
        Reply::Accept,
        reply("a2 BAD already idling\r\n"),
    ]);
    let mut handle = Handle::make(&mut session).unwrap();
    assert_eq!(handle.init(), Err(Error::ProtocolViolation));
    drop(handle);
    assert_eq!(session.log().len(), 4);
}

#[test]
fn only_deadline_errors_are_timeouts() {
    assert!(Error::Io(IoKind::TimedOut).is_timeout());
    assert!(Error::Io(IoKind::WouldBlock).is_timeout());
    assert!(!Error::Io(IoKind::Other).is_timeout());
    assert!(!Error::Bad.is_timeout());
    assert!(!Error::No.is_timeout());
    assert!(!Error::ConnectionLost.is_timeout());
    assert!(!Error::ProtocolViolation.is_timeout());
}
