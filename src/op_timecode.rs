//! The time code payload: five raw bytes after the two filler bytes.

use vstd::prelude::*;
use crate::header::{HEADER_LEN, PROTOCOL_VERSION, VERSION_LOCATION};
use crate::wire::{be16, be16_at};

verus! {

/// Offset of the first time code field.
pub const TIMECODE_LOCATION: usize = 14;

/// Length of a buffer that holds every time code field.
pub const TIMECODE_LEN: usize = 19;

/// Whether buffer `b` is long enough to hold the version field and holds the
/// supported version there.
pub open spec fn version_ok(b: Seq<u8>) -> bool {
    b.len() >= HEADER_LEN && be16(b, VERSION_LOCATION as int) == PROTOCOL_VERSION
}

/// Checks the big-endian version field at its fixed offset. A buffer too
/// short to hold it fails the check.
pub fn validate_version(data: &[u8]) -> (r: Option<()>)
    ensures
        r is Some <==> version_ok(data@),
{
    if data.len() < HEADER_LEN {
        return None;
    }
    if be16_at(data, VERSION_LOCATION) == PROTOCOL_VERSION {
        Some(())
    } else {
        None
    }
}

/// A time code: its fields are the wire bytes as read, with no range check.
#[derive(Clone, Copy, Debug, PartialEq, Eq, Structural)]
pub struct OpTimeCode {
    pub frames: u8,
    pub seconds: u8,
    pub minutes: u8,
    pub hours: u8,
    pub typee: u8,
}

/// The time code that buffer `b` holds, if it is long enough and carries the
/// supported version.
pub open spec fn timecode_of(b: Seq<u8>) -> Option<OpTimeCode> {
    if b.len() >= TIMECODE_LEN && version_ok(b) {
        Some(OpTimeCode {
            frames: b[TIMECODE_LOCATION as int],
            seconds: b[TIMECODE_LOCATION + 1],
            minutes: b[TIMECODE_LOCATION + 2],
            hours: b[TIMECODE_LOCATION + 3],
            typee: b[TIMECODE_LOCATION + 4],
        })
    } else {
        None
    }
}

impl OpTimeCode {
    /// Reads the five time code bytes from a whole datagram. The version
    /// field is checked here again, as a defence in depth for callers that
    /// did not decode the header first; it cannot fail after `Header::from_raw`
    /// has succeeded.
    pub fn from_raw(raw: &[u8]) -> (r: Option<OpTimeCode>)
        ensures
            r == timecode_of(raw@),
    {
        if validate_version(raw).is_none() {
            return None;
        }
        if raw.len() < TIMECODE_LEN {
            return None;
        }
        let frames = raw[TIMECODE_LOCATION];
        let seconds = raw[TIMECODE_LOCATION + 1];
        let minutes = raw[TIMECODE_LOCATION + 2];
        let hours = raw[TIMECODE_LOCATION + 3];
        let typee = raw[TIMECODE_LOCATION + 4];
        Some(OpTimeCode { frames, seconds, minutes, hours, typee })
    }
}

} // verus!
