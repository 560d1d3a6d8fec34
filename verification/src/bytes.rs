//! Integers as the hive stores them, and sub-ranges of byte ranges.
use core::ops::Range;
use vstd::prelude::*;
use zerocopy::byteorder::{LittleEndian, I32, U16, U32};

verus! {

/// The 16-bit integer that two bytes hold in little-endian order.
pub open spec fn le_u16(bytes: Seq<u8>) -> u16 {
    (bytes[0] as int + 0x100 * (bytes[1] as int)) as u16
}

/// The 32-bit integer that four bytes hold in little-endian order.
pub open spec fn le_u32(bytes: Seq<u8>) -> u32 {
    (bytes[0] as int + 0x100 * (bytes[1] as int) + 0x1_0000 * (bytes[2] as int) + 0x100_0000 * (
    bytes[3] as int)) as u32
}

/// The signed 32-bit integer that four bytes hold in little-endian order, in two's complement.
pub open spec fn le_i32(bytes: Seq<u8>) -> i32 {
    if le_u32(bytes) >= 0x8000_0000 {
        (le_u32(bytes) - 0x1_0000_0000) as i32
    } else {
        le_u32(bytes) as i32
    }
}

/// The 32-bit integer that four bytes hold in big-endian order.
pub open spec fn be_u32(bytes: Seq<u8>) -> u32 {
    (bytes[3] as int + 0x100 * (bytes[2] as int) + 0x1_0000 * (bytes[1] as int) + 0x100_0000 * (
    bytes[0] as int)) as u32
}

/// The 64-bit integer that eight bytes hold in little-endian order.
pub open spec fn le_u64(bytes: Seq<u8>) -> u64 {
    (le_u32(bytes.subrange(0, 4)) as int + 0x1_0000_0000 * (le_u32(bytes.subrange(4, 8)) as int)) as u64
}

/// Reads a header field of two bytes.
///
/// Trusted: `zerocopy::byteorder::U16::<LittleEndian>::from_bytes` takes the two bytes as
/// they are stored, and `get` returns the integer that they are in little-endian order.
#[verifier::external_body]
pub(crate) fn u16_field(bytes: &[u8]) -> (value: u16)
    requires
        bytes@.len() == 2,
    ensures
        value == le_u16(bytes@),
{
    U16::<LittleEndian>::from_bytes([bytes[0], bytes[1]]).get()
}

/// Reads a header field of four bytes.
///
/// Trusted: `zerocopy::byteorder::U32::<LittleEndian>::from_bytes` takes the four bytes as
/// they are stored, and `get` returns the integer that they are in little-endian order.
#[verifier::external_body]
pub(crate) fn u32_field(bytes: &[u8]) -> (value: u32)
    requires
        bytes@.len() == 4,
    ensures
        value == le_u32(bytes@),
{
    U32::<LittleEndian>::from_bytes([bytes[0], bytes[1], bytes[2], bytes[3]]).get()
}

/// Reads a signed header field of four bytes.
///
/// Trusted: `zerocopy::byteorder::I32::<LittleEndian>::from_bytes` takes the four bytes as
/// they are stored, and `get` returns the two's complement integer that they are in
/// little-endian order.
#[verifier::external_body]
pub(crate) fn i32_field(bytes: &[u8]) -> (value: i32)
    requires
        bytes@.len() == 4,
    ensures
        value == le_i32(bytes@),
{
    I32::<LittleEndian>::from_bytes([bytes[0], bytes[1], bytes[2], bytes[3]]).get()
}

/// The first `len` bytes of `parent` as a range, where `parent` is a range with
/// `start <= end` that holds at least `len` bytes.
pub open spec fn subrange_of(parent: Range<usize>, len: usize) -> Option<Range<usize>> {
    if parent.start <= parent.end && len <= parent.end - parent.start {
        Some(Range { start: parent.start, end: (parent.start + len) as usize })
    } else {
        None
    }
}

/// Returns the leading `len` bytes of `parent` if it holds that many, else `None`.
pub fn byte_subrange(parent: &Range<usize>, len: usize) -> (sub: Option<Range<usize>>)
    ensures
        sub == subrange_of(*parent, len),
{
    if parent.start <= parent.end && len <= parent.end - parent.start {
        Some(parent.start..parent.start + len)
    } else {
        None
    }
}

/// Reads four bytes as a little-endian integer.
pub fn u32_from_le_bytes(bytes: &[u8]) -> (value: u32)
    requires
        bytes@.len() == 4,
    ensures
        value == le_u32(bytes@),
{
    bytes[0] as u32 + 0x100 * (bytes[1] as u32) + 0x1_0000 * (bytes[2] as u32) + 0x100_0000 * (
    bytes[3] as u32)
}

/// Reads four bytes as a big-endian integer.
pub fn u32_from_be_bytes(bytes: &[u8]) -> (value: u32)
    requires
        bytes@.len() == 4,
    ensures
        value == be_u32(bytes@),
{
    bytes[3] as u32 + 0x100 * (bytes[2] as u32) + 0x1_0000 * (bytes[1] as u32) + 0x100_0000 * (
    bytes[0] as u32)
}

/// Reads eight bytes as a little-endian integer.
pub fn u64_from_le_bytes(bytes: &[u8]) -> (value: u64)
    requires
        bytes@.len() == 8,
    ensures
        value == le_u64(bytes@),
{
    let low = bytes[0] as u64 + 0x100 * (bytes[1] as u64) + 0x1_0000 * (bytes[2] as u64)
        + 0x100_0000 * (bytes[3] as u64);
    let high = bytes[4] as u64 + 0x100 * (bytes[5] as u64) + 0x1_0000 * (bytes[6] as u64)
        + 0x100_0000 * (bytes[7] as u64);
    assert(low == le_u32(bytes@.subrange(0, 4)));
    assert(high == le_u32(bytes@.subrange(4, 8)));
    low + 0x1_0000_0000 * high
}

} // verus!
