//! What can be wrong with hive data.
use crate::key_value::KeyValueDataType;
use vstd::prelude::*;

verus! {

/// A structure of the hive that cannot be read as what it should be.
///
/// `offset` is always the position in the hive, counted from its first byte,
/// of the field or structure that is at fault.
#[allow(inconsistent_fields)]
#[derive(Clone, Debug, PartialEq, Eq)]
pub enum NtHiveError {
    /// A read of `needed` bytes at `offset` was asked of a span that holds only `available`.
    OutOfBounds { offset: usize, needed: usize, available: usize },
    /// A structure does not begin with the two bytes that mark its kind.
    InvalidTwoByteSignature { offset: usize, expected: [u8; 2], actual: [u8; 2] },
    /// A cell is too small for the header of the structure that it should hold.
    InvalidHeaderSize { offset: usize, expected: usize, actual: usize },
    /// A size or count that a field declares does not fit what contains it.
    InvalidSizeField { offset: usize, expected: usize, actual: usize },
    /// The data that a value declares exceeds what is there.
    InvalidDataSize { offset: usize, expected: usize, actual: usize },
    /// The size in a cell's header is that of a free cell, is zero,
    /// is no multiple of eight, or reaches past the end of the hive.
    InvalidCellSize { offset: usize, actual: i32 },
    /// A data offset points past the end of the hive.
    InvalidDataOffset { offset: usize, actual: u32 },
    /// The data type code of a value is none of the known ones.
    UnsupportedKeyValueDataType { offset: usize, actual: u32 },
    /// An element of an Index Root refers to something that is no subkey list leaf.
    InvalidSubkeyListSignature { offset: usize, expected: [[u8; 2]; 3], actual: [u8; 2] },
    /// A typed read was asked of a value that has another data type.
    InvalidKeyValueDataType { expected: &'static [KeyValueDataType], actual: KeyValueDataType },
}

} // verus!
