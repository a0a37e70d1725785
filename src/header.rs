//! The fixed twelve-byte header: magic identifier, opcode, protocol version.

use vstd::prelude::*;
use crate::wire::{be16, be16_at, le16, le16_at};

verus! {

/// Length of the header in bytes.
pub const HEADER_LEN: usize = 12;

/// The one protocol version that this decoder accepts.
pub const PROTOCOL_VERSION: u16 = 14;

/// Offset of the little-endian opcode.
pub const OPCODE_LOCATION: usize = 8;

/// Offset of the big-endian protocol version.
pub const VERSION_LOCATION: usize = 10;

/// Opcode values of the operations that have a payload decoder.
pub const OP_POLL: u16 = 0x2000;
pub const OP_POLL_REPLY: u16 = 0x2100;
pub const OP_TIME_CODE: u16 = 0x9700;

/// Why a buffer is not a frame.
#[derive(Clone, Copy, Debug, PartialEq, Eq, Structural)]
pub enum DecodeError {
    /// The buffer ends before a field that must be read.
    Truncated,
    /// The first eight bytes are not the magic identifier.
    InvalidMagic,
    /// The version field holds another version than the supported one.
    UnsupportedVersion,
}

/// The operation a frame carries, as selected by its opcode field.
#[derive(Clone, Copy, Debug, PartialEq, Eq, Structural)]
pub enum Opcode {
    OpPoll,
    OpPollReply,
    OpTimeCode,
    /// A selector value outside the known table; it is kept as read.
    Unknown(u16),
}

/// The magic identifier "Art-Net" followed by a zero byte.
pub open spec fn magic() -> Seq<u8> {
    seq![65u8, 114u8, 116u8, 45u8, 78u8, 101u8, 116u8, 0u8]
}

/// The opcode that a selector value stands for.
pub open spec fn opcode_of(v: u16) -> Opcode {
    if v == OP_POLL {
        Opcode::OpPoll
    } else if v == OP_POLL_REPLY {
        Opcode::OpPollReply
    } else if v == OP_TIME_CODE {
        Opcode::OpTimeCode
    } else {
        Opcode::Unknown(v)
    }
}

/// Whether a selector value is in the known table.
pub open spec fn is_known_opcode(v: u16) -> bool {
    v == OP_POLL || v == OP_POLL_REPLY || v == OP_TIME_CODE
}

impl Opcode {
    /// Maps a selector value through the known table; any other value is `Unknown`.
    pub fn from_u16(v: u16) -> (r: Opcode)
        ensures
            r == opcode_of(v),
    {
        if v == OP_POLL {
            Opcode::OpPoll
        } else if v == OP_POLL_REPLY {
            Opcode::OpPollReply
        } else if v == OP_TIME_CODE {
            Opcode::OpTimeCode
        } else {
            Opcode::Unknown(v)
        }
    }
}

/// A validated header. Only `Header::from_raw` builds one, after the magic
/// and version checks have passed, so `version` is always `PROTOCOL_VERSION`.
#[derive(Clone, Copy, Debug, PartialEq, Eq, Structural)]
pub struct Header {
    pub opcode: Opcode,
    pub version: u16,
}

/// What the header of buffer `b` decodes to.
pub open spec fn header_of(b: Seq<u8>) -> Result<Header, DecodeError> {
    if b.len() < HEADER_LEN {
        Err(DecodeError::Truncated)
    } else if b.subrange(0, 8) != magic() {
        Err(DecodeError::InvalidMagic)
    } else if be16(b, VERSION_LOCATION as int) != PROTOCOL_VERSION {
        Err(DecodeError::UnsupportedVersion)
    } else {
        Ok(Header {
            opcode: opcode_of(le16(b, OPCODE_LOCATION as int) as u16),
            version: PROTOCOL_VERSION,
        })
    }
}

/// Compares the first eight bytes of `raw` with the magic identifier.
pub fn has_magic(raw: &[u8]) -> (r: bool)
    requires
        raw@.len() >= 8,
    ensures
        r == (raw@.subrange(0, 8) == magic()),
{
    let r = raw[0] == 65 && raw[1] == 114 && raw[2] == 116 && raw[3] == 45 && raw[4] == 78
        && raw[5] == 101 && raw[6] == 116 && raw[7] == 0;
    if !r {
        assert(raw@.subrange(0, 8) != magic()) by {
            let s = raw@.subrange(0, 8);
            assert(s[0] == raw@[0] && s[1] == raw@[1] && s[2] == raw@[2] && s[3] == raw@[3]);
            assert(s[4] == raw@[4] && s[5] == raw@[5] && s[6] == raw@[6] && s[7] == raw@[7]);
        }
    } else {
        assert(raw@.subrange(0, 8) =~= magic());
    }
    r
}

impl Header {
    /// Decodes the header at the start of `raw`: the buffer must hold twelve
    /// bytes, start with the magic identifier and carry the supported version.
    pub fn from_raw(raw: &[u8]) -> (r: Result<Header, DecodeError>)
        ensures
            r == header_of(raw@),
    {
        if raw.len() < HEADER_LEN {
            return Err(DecodeError::Truncated);
        }
        if !has_magic(raw) {
            return Err(DecodeError::InvalidMagic);
        }
        let opcode = le16_at(raw, OPCODE_LOCATION);
        let version = be16_at(raw, VERSION_LOCATION);
        if version != PROTOCOL_VERSION {
            return Err(DecodeError::UnsupportedVersion);
        }
        Ok(Header { opcode: Opcode::from_u16(opcode), version })
    }
}

} // verus!
