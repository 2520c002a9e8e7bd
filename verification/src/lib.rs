//! Blocking waits on a selected mailbox with the IMAP `IDLE` command (RFC 2177).
//!
//! A [`Handle`] borrows a [`Session`] exclusively, enters the long wait when it is made, blocks
//! until the server pushes a line or a read deadline passes, and ends the long wait with `DONE`
//! before the session is handed back. Every contract is stated over the session's journal: the
//! sequence of calls made on it, each with its outcome.

pub mod error;
pub mod idle;
pub mod laws;
pub mod scripted;
pub mod session;
pub mod trace;
pub mod wire;

pub use error::{Error, IoKind};
pub use idle::Handle;
pub use session::{Exchange, Session, SetReadTimeout};
