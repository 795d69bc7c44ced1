//! Little-endian integer fields inside byte buffers.
use byteorder::ByteOrder;
use byteorder::LittleEndian;
use vstd::prelude::*;

verus! {

/// The unsigned 16-bit little-endian value stored at `s[i..i + 2]`.
pub open spec fn le16(s: Seq<u8>, i: int) -> u16 {
    (s[i] as int + 256 * (s[i + 1] as int)) as u16
}

/// The unsigned 32-bit little-endian value stored at `s[i..i + 4]`.
pub open spec fn le32(s: Seq<u8>, i: int) -> u32 {
    (s[i] as int + 256 * (s[i + 1] as int) + 65536 * (s[i + 2] as int) + 16777216 * (
    s[i + 3] as int)) as u32
}

/// The signed (two's complement) 32-bit little-endian value stored at `s[i..i + 4]`.
pub open spec fn le_i32(s: Seq<u8>, i: int) -> i32 {
    let u = le32(s, i) as int;
    (if u >= 0x8000_0000 {
        u - 0x1_0000_0000
    } else {
        u
    }) as i32
}

/// Reads a `u16` in little-endian order with `byteorder::LittleEndian::read_u16`,
/// which is claimed to return `buf[pos] + 256 * buf[pos + 1]`.
#[verifier::external_body]
pub(crate) fn read_u16_le(buf: &[u8], pos: usize) -> (r: u16)
    requires
        pos + 2 <= buf@.len(),
    ensures
        r == le16(buf@, pos as int),
{
    LittleEndian::read_u16(&buf[pos..pos + 2])
}

/// Reads a `u32` in little-endian order with `byteorder::LittleEndian::read_u32`,
/// which is claimed to return the base-256 number whose digits are
/// `buf[pos..pos + 4]`, least significant first.
#[verifier::external_body]
pub(crate) fn read_u32_le(buf: &[u8], pos: usize) -> (r: u32)
    requires
        pos + 4 <= buf@.len(),
    ensures
        r == le32(buf@, pos as int),
{
    LittleEndian::read_u32(&buf[pos..pos + 4])
}

/// Reads an `i32` in little-endian order with `byteorder::LittleEndian::read_i32`,
/// which is claimed to reinterpret the four bytes at `buf[pos..pos + 4]` as a two's
/// complement number.
#[verifier::external_body]
pub(crate) fn read_i32_le(buf: &[u8], pos: usize) -> (r: i32)
    requires
        pos + 4 <= buf@.len(),
    ensures
        r == le_i32(buf@, pos as int),
{
    LittleEndian::read_i32(&buf[pos..pos + 4])
}

} // verus!
