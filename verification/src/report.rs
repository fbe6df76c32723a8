//! The worker's self-reported port and the host's query surface.
//!
//! The worker may print a line with a recognizable marker and its bound
//! port after the last colon; the supervisor parses that as the
//! authoritative port. The line is trusted verbatim from the worker's
//! output, with no correlation check against the port requested at spawn:
//! a compromised worker could report an arbitrary port, a known gap that a
//! caller may close by cross-checking against the planned port.
//!
//! The port value is written once and read thereafter; the caller guards
//! the cell with its own synchronization.

use vstd::prelude::*;
use crate::text::{after_last, contains_seq, exec_after_last, exec_parse_u16, exec_trimmed, parsed_u16, trimmed};

verus! {

/// The port is not known until the worker reports it (or a spawn records
/// the requested one).
#[derive(Debug, PartialEq, Eq, Structural, Clone, Copy)]
pub enum StateError {
    NotYetAvailable,
}

/// The marker of the worker's readiness line.
pub open spec fn ready_marker() -> Seq<char> {
    seq!['S', 'e', 'r', 'v', 'e', 'r', ' ', 'l', 'i', 's', 't', 'e', 'n', 'i', 'n', 'g', ' ', 'o', 'n']
}

/// The port an output line reports: the line must carry the marker, and the
/// trimmed text after its last colon must be a port number.
pub open spec fn reported_port(line: Seq<char>) -> Option<u16> {
    if contains_seq(line, ready_marker()) {
        parsed_u16(trimmed(after_last(line, ':')))
    } else {
        None
    }
}

/// Parses one worker output line for the readiness report.
pub fn parse_port_report(line: &str) -> (r: Option<u16>)
    ensures
        r == reported_port(line@),
{
    proof {
        reveal_strlit("Server listening on");
        assert("Server listening on"@ =~= ready_marker());
    }
    if !crate::text::exec_contains(line, "Server listening on") {
        return None;
    }
    let tail = exec_after_last(line, ':');
    let token = exec_trimmed(tail.as_str());
    exec_parse_u16(token.as_str())
}

/// The host-visible state of one supervision session: the worker's port,
/// written once, queried by the user interface.
pub struct SidecarState {
    pub port: Option<u16>,
}

impl SidecarState {
    /// A fresh session: no port known yet.
    pub fn new() -> (s: SidecarState)
        ensures
            s.port is None,
    {
        SidecarState { port: None }
    }

    /// Records the authoritative port.
    pub fn set_port(&mut self, port: u16)
        ensures
            final(self).port == Some(port),
    {
        self.port = Some(port);
    }

    /// The single query the user interface gets: the worker's port, or
    /// `NotYetAvailable` until it is known.
    pub fn get_server_port(&self) -> (r: Result<u16, StateError>)
        ensures
            self.port matches Some(p) ==> r == Ok::<u16, StateError>(p),
            self.port is None ==> r == Err::<u16, StateError>(StateError::NotYetAvailable),
    {
        match self.port {
            Some(p) => Ok(p),
            None => Err(StateError::NotYetAvailable),
        }
    }
}

} // verus!
