//! Reading 16-bit integers out of a byte buffer, in either byte order.

use vstd::prelude::*;

verus! {

/// The 16-bit value of the two bytes at `i` and `i + 1`, least significant first.
pub open spec fn le16(b: Seq<u8>, i: int) -> int {
    b[i] as int + 256 * b[i + 1] as int
}

/// The 16-bit value of the two bytes at `i` and `i + 1`, most significant first.
pub open spec fn be16(b: Seq<u8>, i: int) -> int {
    256 * b[i] as int + b[i + 1] as int
}

/// Relies on byteorder's `LittleEndian::read_u16`: it reads `buf[..2]` with the
/// least significant byte first, and panics when the buffer is shorter than two bytes.
#[verifier::external_body]
fn read_u16_le(buf: &[u8]) -> (r: u16)
    requires
        buf@.len() >= 2,
    ensures
        r as int == le16(buf@, 0),
{
    <byteorder::LittleEndian as byteorder::ByteOrder>::read_u16(buf)
}

/// Relies on byteorder's `BigEndian::read_u16`: it reads `buf[..2]` with the
/// most significant byte first, and panics when the buffer is shorter than two bytes.
#[verifier::external_body]
fn read_u16_be(buf: &[u8]) -> (r: u16)
    requires
        buf@.len() >= 2,
    ensures
        r as int == be16(buf@, 0),
{
    <byteorder::BigEndian as byteorder::ByteOrder>::read_u16(buf)
}

/// Reads the first two bytes of `data` as a little-endian `u16`.
pub fn read_little_endian(data: &[u8]) -> (r: u16)
    requires
        data@.len() >= 2,
    ensures
        r as int == le16(data@, 0),
{
    read_u16_le(data)
}

/// Reads the two bytes of `data` at `at` as a little-endian `u16`.
pub fn le16_at(data: &[u8], at: usize) -> (r: u16)
    requires
        at + 2 <= data@.len(),
    ensures
        r as int == le16(data@, at as int),
{
    // A slice's length is a usize, so `at + 2` below does not overflow.
    let _len: usize = data.len();
    let s = &data[at..at + 2];
    read_u16_le(s)
}

/// Reads the two bytes of `data` at `at` as a big-endian `u16`.
pub fn be16_at(data: &[u8], at: usize) -> (r: u16)
    requires
        at + 2 <= data@.len(),
    ensures
        r as int == be16(data@, at as int),
{
    // A slice's length is a usize, so `at + 2` below does not overflow.
    let _len: usize = data.len();
    let s = &data[at..at + 2];
    read_u16_be(s)
}

} // verus!
