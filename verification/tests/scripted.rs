use imap_idle::scripted::{copy_bytes, Record, Reply, ScriptedSession};
use imap_idle::{Error, IoKind, Session, SetReadTimeout};
use std::time::Duration;

#[test]
fn a_new_session_has_no_records_and_no_deadline() {
    let session = ScriptedSession::new(vec![Reply::Accept, Reply::Accept]);
    assert!(session.log().is_empty());
    assert_eq!(session.deadline(), None);
    assert_eq!(session.remaining(), 2);
    assert_eq!(session.read_timeout(), Ok(None));
}

#[test]
fn an_exhausted_script_loses_the_connection() {
    let mut session = ScriptedSession::new(Vec::new());
    assert_eq!(session.run_command("NOOP"), Err(Error::ConnectionLost));
    let mut buffer = Vec::new();
    assert_eq!(session.readline(&mut buffer), Err(Error::ConnectionLost));
    assert!(buffer.is_empty());
    assert_eq!(session.read_response(), Err(Error::ConnectionLost));
    assert_eq!(session.write_line(b"DONE"), Err(Error::ConnectionLost));
    assert_eq!(session.flush(), Err(Error::ConnectionLost));
    assert_eq!(session.set_read_timeout(None), Err(Error::ConnectionLost));
    assert_eq!(session.log().len(), 6);
    assert_eq!(session.remaining(), 0);
}

#[test]
fn readline_appends_to_the_buffer() {
    let mut session = ScriptedSession::new(vec![Reply::Line(b"+ go\r\n".to_vec()), Reply::Accept]);
    let mut buffer = b"old".to_vec();
    assert_eq!(session.readline(&mut buffer), Ok(6));
    assert_eq!(buffer, b"old+ go\r\n".to_vec());
    assert_eq!(session.readline(&mut buffer), Ok(0));
    assert_eq!(buffer, b"old+ go\r\n".to_vec());
    assert_eq!(
        session.log(),
        &vec![
            Record::Line(Ok(b"old+ go\r\n".to_vec())),
            Record::Line(Ok(b"old+ go\r\n".to_vec())),
        ]
    );
}

#[test]
fn each_call_uses_one_reply() {
    let mut session = ScriptedSession::new(vec![
        Reply::Accept,
        Reply::Line(b"ignored".to_vec()),
        Reply::Fail(Error::Io(IoKind::Other)),
        Reply::Line(b"a1 OK\r\n".to_vec()),
    ]);
    assert_eq!(session.run_command("IDLE"), Ok(()));
    assert_eq!(session.write_line(b"DONE"), Ok(()));
    assert_eq!(session.flush(), Err(Error::Io(IoKind::Other)));
    assert_eq!(session.read_response(), Ok(b"a1 OK\r\n".to_vec()));
    assert_eq!(session.remaining(), 0);
    assert_eq!(
        session.log(),
        &vec![
            Record::Command("IDLE".to_string(), Ok(())),
            Record::Write(b"DONE".to_vec(), Ok(())),
            Record::Flush(Err(Error::Io(IoKind::Other))),
            Record::Response(Ok(b"a1 OK\r\n".to_vec())),
        ]
    );
}

#[test]
fn a_refused_deadline_leaves_the_old_one() {
    let mut session = ScriptedSession::new(vec![
        Reply::Accept,
        Reply::Fail(Error::Io(IoKind::Other)),
        Reply::Accept,
    ]);
    assert_eq!(session.set_read_timeout(Some(Duration::from_secs(3))), Ok(()));
    assert_eq!(session.read_timeout(), Ok(Some(Duration::from_secs(3))));
    assert_eq!(session.set_read_timeout(Some(Duration::from_secs(4))), Err(Error::Io(IoKind::Other)));
    assert_eq!(session.read_timeout(), Ok(Some(Duration::from_secs(3))));
    assert_eq!(session.set_read_timeout(None), Ok(()));
    assert_eq!(session.read_timeout(), Ok(None));
    assert_eq!(session.deadline(), None);
}

#[test]
fn a_hidden_deadline_cannot_be_read() {
    let mut session = ScriptedSession::new(vec![Reply::Accept]);
    session.hide_deadline();
    assert_eq!(session.read_timeout(), Err(Error::Io(IoKind::Other)));
    assert_eq!(session.set_read_timeout(Some(Duration::from_secs(3))), Ok(()));
    assert_eq!(session.deadline(), Some(Duration::from_secs(3)));
    assert_eq!(session.read_timeout(), Err(Error::Io(IoKind::Other)));
}

#[test]
fn copy_bytes_copies() {
    assert_eq!(copy_bytes(b""), Vec::<u8>::new());
    assert_eq!(copy_bytes(b"DONE"), vec![0x44, 0x4f, 0x4e, 0x45]);
}
