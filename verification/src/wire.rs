//! The bytes and durations that the protocol fixes.

use std::time::Duration;
use vstd::prelude::*;

verus! {

/// The duration of a whole number of seconds, as `Duration::from_secs` makes it.
pub uninterp spec fn whole_seconds(secs: u64) -> Duration;

/// `std::time::Duration::from_secs`: the result is a function of the number of seconds alone.
/// `Duration` is opaque to the verifier, so the result is named rather than described.
pub assume_specification[ Duration::from_secs ](secs: u64) -> (d: Duration)
    ensures
        d == whole_seconds(secs),
;

/// The keepalive interval of a new handle, in seconds: 29 minutes.
pub const KEEPALIVE_SECS: u64 = 29 * 60;

/// The read deadline under which a wait that timed out is terminated, in seconds.
pub const DRAIN_SECS: u64 = 60;

/// The text of the entry command, which takes no arguments.
pub open spec fn entry_command() -> Seq<char> {
    "IDLE"@
}

/// The line that ends the long wait: the four bytes `DONE`.
pub open spec fn done_line() -> Seq<u8> {
    seq![0x44u8, 0x4fu8, 0x4eu8, 0x45u8]
}

/// The first byte of a continuation request, `+`.
pub open spec fn continuation_marker() -> u8 {
    0x2bu8
}

/// Whether a raw line is a continuation request: it begins with `+`.
pub open spec fn is_continuation(line: Seq<u8>) -> bool {
    line.len() > 0 && line[0] == continuation_marker()
}

/// The keepalive interval of a new handle: 29 minutes, the longest that RFC 2177 advises.
pub open spec fn default_keepalive() -> Duration {
    whole_seconds(KEEPALIVE_SECS)
}

/// The read deadline under which the acknowledgement of `DONE` is awaited after a wait timed
/// out: 60 seconds.
pub open spec fn drain_deadline() -> Duration {
    whole_seconds(DRAIN_SECS)
}

/// Decides whether the line that answered the entry command is a continuation request.
pub fn starts_continuation(line: &Vec<u8>) -> (r: bool)
    ensures
        r == is_continuation(line@),
{
    line.len() > 0 && line[0] == 0x2bu8
}

/// The bytes of the termination line.
pub fn done_bytes() -> (line: Vec<u8>)
    ensures
        line@ == done_line(),
{
    let mut line: Vec<u8> = Vec::new();
    line.push(0x44u8);
    line.push(0x4fu8);
    line.push(0x4eu8);
    line.push(0x45u8);
    line
}

} // verus!
