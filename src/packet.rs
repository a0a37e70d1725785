//! The frame decoder: a header and the payload that its opcode selects.

use vstd::prelude::*;
use crate::header::{header_of, is_known_opcode, magic, DecodeError, Header, Opcode,
    HEADER_LEN, OPCODE_LOCATION, PROTOCOL_VERSION, VERSION_LOCATION};
use crate::op_poll::{OpPoll, OpPollReply, POLL_LEN};
use crate::op_timecode::{timecode_of, OpTimeCode};
use crate::wire::{be16, le16};

verus! {

/// The decoded payload of a frame, one variant per operation.
#[derive(Clone, Copy, Debug, PartialEq, Eq, Structural)]
pub enum Payload {
    Poll(OpPoll),
    PollReply(OpPollReply),
    TimeCode(OpTimeCode),
    /// The opcode is not in the known table: no payload was decoded.
    Unrecognized,
}

/// A decoded frame: a validated header and the payload that its opcode selects.
#[derive(Clone, Copy, Debug, PartialEq, Eq, Structural)]
pub struct Packet {
    pub header: Header,
    pub payload: Payload,
}

/// Whether a payload is of the variant that `op` selects.
pub open spec fn payload_matches(op: Opcode, p: Payload) -> bool {
    match op {
        Opcode::OpPoll => p is Poll,
        Opcode::OpPollReply => p is PollReply,
        Opcode::OpTimeCode => p is TimeCode,
        Opcode::Unknown(_) => p is Unrecognized,
    }
}

impl Packet {
    /// The pairing of a frame: its payload variant is the one its opcode
    /// selects, and its header carries the supported version.
    pub open spec fn wf(&self) -> bool {
        &&& payload_matches(self.header.opcode, self.payload)
        &&& self.header.version == PROTOCOL_VERSION
    }
}

/// What buffer `b` decodes to as a whole frame.
pub open spec fn decode_of(b: Seq<u8>) -> Result<Packet, DecodeError> {
    match header_of(b) {
        Err(e) => Err(e),
        Ok(h) => match h.opcode {
            Opcode::OpPoll => if b.len() >= POLL_LEN {
                Ok(Packet { header: h, payload: Payload::Poll(OpPoll {}) })
            } else {
                Err(DecodeError::Truncated)
            },
            Opcode::OpPollReply => Ok(
                Packet { header: h, payload: Payload::PollReply(OpPollReply {}) },
            ),
            Opcode::OpTimeCode => match timecode_of(b) {
                Some(t) => Ok(Packet { header: h, payload: Payload::TimeCode(t) }),
                None => Err(DecodeError::Truncated),
            },
            Opcode::Unknown(_) => Ok(Packet { header: h, payload: Payload::Unrecognized }),
        },
    }
}

impl Packet {
    /// Decodes a datagram: the header first, whose failure is returned as
    /// it is, then the payload that the opcode selects. A payload that does
    /// not fit in the buffer fails the whole decode with `Truncated`.
    pub fn decode(raw: &[u8]) -> (r: Result<Packet, DecodeError>)
        ensures
            r == decode_of(raw@),
            r matches Ok(p) ==> p.wf(),
    {
        let header = match Header::from_raw(raw) {
            Ok(h) => h,
            Err(e) => return Err(e),
        };
        let payload = match header.opcode {
            Opcode::OpPoll => match OpPoll::from_raw(raw) {
                Some(p) => Payload::Poll(p),
                None => return Err(DecodeError::Truncated),
            },
            Opcode::OpPollReply => match OpPollReply::from_raw(raw) {
                Some(p) => Payload::PollReply(p),
                None => return Err(DecodeError::Truncated),
            },
            Opcode::OpTimeCode => match OpTimeCode::from_raw(raw) {
                Some(t) => Payload::TimeCode(t),
                None => return Err(DecodeError::Truncated),
            },
            Opcode::Unknown(_) => Payload::Unrecognized,
        };
        Ok(Packet { header, payload })
    }

    /// Decodes a datagram, forgetting why a buffer that is not a frame failed.
    pub fn from_raw(raw: &[u8]) -> (r: Option<Packet>)
        ensures
            r == decode_of(raw@).ok(),
    {
        match Packet::decode(raw) {
            Ok(p) => Some(p),
            Err(_) => None,
        }
    }
}

/// A buffer shorter than the header fails with `Truncated`.
pub proof fn lemma_short_buffer_truncated(b: Seq<u8>)
    requires
        b.len() < HEADER_LEN,
    ensures
        decode_of(b) == Err::<Packet, DecodeError>(DecodeError::Truncated),
{
}

/// A buffer that holds a whole header but does not start with the magic
/// identifier fails with `InvalidMagic`, whatever its other bytes are.
pub proof fn lemma_bad_magic_rejected(b: Seq<u8>)
    requires
        b.len() >= HEADER_LEN,
        b.subrange(0, 8) != magic(),
    ensures
        decode_of(b) == Err::<Packet, DecodeError>(DecodeError::InvalidMagic),
{
}

/// A buffer with the magic identifier and another version than the supported
/// one fails with `UnsupportedVersion`.
pub proof fn lemma_bad_version_rejected(b: Seq<u8>)
    requires
        b.len() >= HEADER_LEN,
        b.subrange(0, 8) == magic(),
        be16(b, VERSION_LOCATION as int) != PROTOCOL_VERSION,
    ensures
        decode_of(b) == Err::<Packet, DecodeError>(DecodeError::UnsupportedVersion),
{
}

/// A valid header whose opcode is not in the known table decodes to a frame
/// with an unknown opcode and no payload.
pub proof fn lemma_unknown_opcode_accepted(b: Seq<u8>)
    requires
        b.len() >= HEADER_LEN,
        b.subrange(0, 8) == magic(),
        be16(b, VERSION_LOCATION as int) == PROTOCOL_VERSION,
        !is_known_opcode(le16(b, OPCODE_LOCATION as int) as u16),
    ensures
        decode_of(b) matches Ok(p) && p.header.opcode is Unknown && p.payload
            == Payload::Unrecognized,
{
}

/// Decoding depends on the bytes alone: two buffers with the same contents
/// decode to equal results, frames included.
pub proof fn lemma_decode_deterministic(a: Seq<u8>, b: Seq<u8>)
    requires
        a == b,
    ensures
        decode_of(a) == decode_of(b),
{
}

} // verus!
