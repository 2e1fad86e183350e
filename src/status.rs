//! Status lines printed by the server: decoding, and the readiness signal
//! they may carry.
use vstd::prelude::*;

verus! {

/// The fields of a status line that this library reads: the `ready` key when
/// it holds a boolean, and the `port` key when it holds an unsigned integer.
#[derive(Debug, Clone, Copy, PartialEq, Eq, Structural)]
pub struct StatusMessage {
    pub ready: Option<bool>,
    pub port: Option<u64>,
}

/// What a line decodes to: `None` when it is not JSON text, else the
/// `ready` and `port` fields read from the decoded value.
pub uninterp spec fn status_of(line: Seq<u8>) -> Option<StatusMessage>;

/// Relies on `serde_json::from_slice` to decode the line into a
/// `serde_json::Value`, on indexing a `Value` by a key (a missing key, or a
/// value that is no object, reads as `Null`), and on `Value::as_bool` and
/// `Value::as_u64` to read the two fields.
#[verifier::external_body]
fn decode_status(line: &[u8]) -> (r: Option<StatusMessage>)
    ensures
        r == status_of(line@),
{
    match serde_json::from_slice::<serde_json::Value>(line) {
        Ok(msg) => Some(StatusMessage { ready: msg["ready"].as_bool(), port: msg["port"].as_u64() }),
        Err(_) => None,
    }
}

/// The port that a decoded status carries as a readiness signal: present only
/// when `ready` is `true` and a port is given. The port is narrowed to 16
/// bits as a cast does.
pub open spec fn readiness(status: Option<StatusMessage>) -> Option<u16> {
    match status {
        Some(m) => match (m.ready, m.port) {
            (Some(true), Some(p)) => Some((p % 65536) as u16),
            _ => None,
        },
        None => None,
    }
}

/// The readiness signal of a decoded status, if it is one.
pub fn readiness_of(status: Option<StatusMessage>) -> (r: Option<u16>)
    ensures
        r == readiness(status),
{
    match status {
        Some(m) => match (m.ready, m.port) {
            (Some(true), Some(p)) => Some((p % 65536) as u16),
            _ => None,
        },
        None => None,
    }
}

/// The readiness signal carried by a line of the server's standard output.
/// A line that is not JSON, or not a readiness message, gives `None`.
pub fn parse_ready_line(line: &[u8]) -> (r: Option<u16>)
    ensures
        r == readiness(status_of(line@)),
{
    readiness_of(decode_status(line))
}

} // verus!
