//! The poll and poll reply payloads, which carry no decoded fields.

use vstd::prelude::*;

verus! {

/// Length of a poll datagram: the header, then a flags byte and a
/// diagnostics priority byte.
pub const POLL_LEN: usize = 14;

/// Marks a poll whose datagram has the expected shape.
#[derive(Clone, Copy, Debug, PartialEq, Eq, Structural)]
pub struct OpPoll {}

/// Marks a poll reply; its fields are not decoded.
#[derive(Clone, Copy, Debug, PartialEq, Eq, Structural)]
pub struct OpPollReply {}

impl OpPoll {
    /// Checks that the datagram is long enough to be a poll.
    pub fn from_raw(raw: &[u8]) -> (r: Option<OpPoll>)
        ensures
            r is Some <==> raw@.len() >= POLL_LEN,
    {
        if raw.len() >= POLL_LEN {
            Some(OpPoll {})
        } else {
            None
        }
    }
}

impl OpPollReply {
    /// A poll reply decodes to the empty marker whatever the buffer holds.
    pub fn from_raw(_raw: &[u8]) -> (r: Option<OpPollReply>)
        ensures
            r == Some(OpPollReply {}),
    {
        Some(OpPollReply {})
    }
}

} // verus!
