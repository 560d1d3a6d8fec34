//! The hive as a whole: bounds-checked reads, and the cells that data offsets refer to.
use crate::bytes::{i32_field, le_i32, le_u16, le_u32, u16_field, u32_field};
use crate::error::NtHiveError;
use core::ops::Range;
use vstd::prelude::*;

verus! {

/// Where the space of Hive Bins begins: right after the header of the hive file.
/// Data offsets count from here.
pub const HIVE_BINS_ORIGIN: usize = 4096;

/// The size of the header of a cell: a signed 32-bit integer.
pub const CELL_HEADER_SIZE: usize = 4;

/// Cells are allocated in multiples of this many bytes.
pub const CELL_ALIGNMENT: usize = 8;

/// The position in the hive that a data offset refers to.
/// Where the sum does not fit the machine's `usize`, this is the largest `usize`.
pub open spec fn position_of(data_offset: u32) -> usize {
    if HIVE_BINS_ORIGIN + data_offset <= usize::MAX {
        (HIVE_BINS_ORIGIN + data_offset) as usize
    } else {
        usize::MAX
    }
}

/// How many bytes of `range` lie inside a hive of `hive_len` bytes, counted from the
/// start of the range; zero for a range that is reversed or begins past the end.
pub open spec fn available_in(hive_len: nat, range: Range<usize>) -> usize {
    if range.start <= range.end && range.end <= hive_len {
        (range.end - range.start) as usize
    } else if range.start <= range.end && range.start <= hive_len {
        (hive_len - range.start) as usize
    } else {
        0
    }
}

/// The leading `len` bytes of `range`, or why a hive of `hive_len` bytes does not hold them:
/// the range is reversed, begins past the end of the hive, or has fewer bytes inside it.
pub open spec fn checked_sub(hive_len: nat, range: Range<usize>, len: usize) -> Result<
    Range<usize>,
    NtHiveError,
> {
    if range.start <= range.end && range.start <= hive_len && len <= available_in(hive_len, range) {
        Ok(Range { start: range.start, end: (range.start + len) as usize })
    } else {
        Err(
            NtHiveError::OutOfBounds {
                offset: range.start,
                needed: len,
                available: available_in(hive_len, range),
            },
        )
    }
}

/// The cell that a data offset refers to, as the range of its bytes after the cell header,
/// or what is wrong with it:
///
/// * the offset points past the end of the hive;
/// * fewer than four bytes are left for the cell header;
/// * the size in the header is positive (a free cell) or zero;
/// * the size of the cell is less than eight bytes or no multiple of eight;
/// * the cell reaches past the end of the hive.
pub open spec fn cell_at(hive: Seq<u8>, data_offset: u32) -> Result<Range<usize>, NtHiveError> {
    let position = HIVE_BINS_ORIGIN + data_offset;
    if position >= hive.len() {
        Err(NtHiveError::InvalidDataOffset { offset: position_of(data_offset), actual: data_offset })
    } else if hive.len() - position < CELL_HEADER_SIZE {
        Err(
            NtHiveError::InvalidHeaderSize {
                offset: position as usize,
                expected: CELL_HEADER_SIZE,
                actual: (hive.len() - position) as usize,
            },
        )
    } else {
        let size = le_i32(hive.subrange(position, position + CELL_HEADER_SIZE));
        if size >= 0 || -size < CELL_ALIGNMENT || (-size) % (CELL_ALIGNMENT as int) != 0 || position
            - size > hive.len() {
            Err(NtHiveError::InvalidCellSize { offset: position as usize, actual: size })
        } else {
            Ok(Range { start: (position + CELL_HEADER_SIZE) as usize, end: (position - size) as usize })
        }
    }
}

/// A cell that resolves lies inside the hive, right after its header,
/// and has at least four bytes.
pub proof fn law_cell_within_hive(hive: Seq<u8>, data_offset: u32)
    requires
        hive.len() <= usize::MAX,
    ensures
        cell_at(hive, data_offset) matches Ok(range) ==> {
            &&& range.start == HIVE_BINS_ORIGIN + data_offset + CELL_HEADER_SIZE
            &&& range.start + 4 <= range.end <= hive.len()
            &&& (range.end - range.start + CELL_HEADER_SIZE) % (CELL_ALIGNMENT as int) == 0
        },
{
}

/// The two bytes of a hive at `position`, where a structure has its signature.
pub open spec fn two_bytes_at(hive: Seq<u8>, position: int) -> [u8; 2] {
    [hive[position], hive[position + 1]]
}

/// The bytes of a hive file.
///
/// Nothing is copied out of them: keys, values and names are views into these bytes.
#[derive(Clone, Copy, Debug)]
pub struct Hive<'h> {
    /// The whole file, from the first byte of its header.
    data: &'h [u8],
}

impl<'h> View for Hive<'h> {
    type V = Seq<u8>;

    closed spec fn view(&self) -> Seq<u8> {
        self.data@
    }
}

/// What is wrong with bytes that are too few for the header of a hive file.
pub open spec fn too_small_for_header(len: nat) -> NtHiveError {
    NtHiveError::InvalidHeaderSize { offset: 0, expected: HIVE_BINS_ORIGIN, actual: len as usize }
}

impl<'h> Hive<'h> {
    #[verifier::type_invariant]
    spec fn well_formed(&self) -> bool {
        self.data@.len() >= HIVE_BINS_ORIGIN
    }

    /// Takes the bytes of a hive file. They must hold the header of the file;
    /// nothing else is checked before it is read.
    pub fn new(data: &'h [u8]) -> (hive: Result<Self, NtHiveError>)
        ensures
            data@.len() >= HIVE_BINS_ORIGIN ==> hive is Ok && hive->Ok_0@ == data@,
            data@.len() < HIVE_BINS_ORIGIN ==> hive is Err && hive->Err_0 == too_small_for_header(
                data@.len(),
            ),
    {
        if data.len() < HIVE_BINS_ORIGIN {
            Err(
                NtHiveError::InvalidHeaderSize {
                    offset: 0,
                    expected: HIVE_BINS_ORIGIN,
                    actual: data.len(),
                },
            )
        } else {
            Ok(Hive { data })
        }
    }

    /// Returns the bytes of the hive.
    pub fn data(&self) -> (data: &'h [u8])
        ensures
            data@ == self@,
            self@.len() >= HIVE_BINS_ORIGIN,
    {
        proof {
            use_type_invariant(self);
        }
        self.data
    }

    /// The number of bytes of the hive.
    pub fn len(&self) -> (len: usize)
        ensures
            len == self@.len(),
    {
        self.data.len()
    }

    /// Returns the bytes of `range`.
    pub fn bytes(&self, range: &Range<usize>) -> (bytes: &'h [u8])
        requires
            range.start <= range.end <= self@.len(),
        ensures
            bytes@ == self@.subrange(range.start as int, range.end as int),
    {
        let data: &'h [u8] = self.data;
        &data[range.start..range.end]
    }

    /// Reads the 16-bit field at `position`.
    pub(crate) fn u16_at(&self, position: usize) -> (value: u16)
        requires
            position + 2 <= self@.len(),
        ensures
            value == le_u16(self@.subrange(position as int, position + 2)),
    {
        assert(self.data.len() == self@.len());
        u16_field(&self.data[position..position + 2])
    }

    /// Reads the 32-bit field at `position`.
    pub(crate) fn u32_at(&self, position: usize) -> (value: u32)
        requires
            position + 4 <= self@.len(),
        ensures
            value == le_u32(self@.subrange(position as int, position + 4)),
    {
        assert(self.data.len() == self@.len());
        u32_field(&self.data[position..position + 4])
    }

    /// Reads the signed 32-bit field at `position`.
    pub(crate) fn i32_at(&self, position: usize) -> (value: i32)
        requires
            position + 4 <= self@.len(),
        ensures
            value == le_i32(self@.subrange(position as int, position + 4)),
    {
        assert(self.data.len() == self@.len());
        i32_field(&self.data[position..position + 4])
    }

    /// Reads the two bytes at `position`, where a structure has its signature.
    pub(crate) fn signature_at(&self, position: usize) -> (signature: [u8; 2])
        requires
            position + 2 <= self@.len(),
        ensures
            signature == two_bytes_at(self@, position as int),
    {
        assert(self.data.len() == self@.len());
        let signature = [self.data[position], self.data[position + 1]];
        assert(signature =~= two_bytes_at(self@, position as int));
        signature
    }

    /// How many bytes of `range` the hive holds, counted from the start of the range.
    pub fn available(&self, range: &Range<usize>) -> (available: usize)
        ensures
            available == available_in(self@.len(), *range),
    {
        let len = self.data.len();
        if range.start <= range.end && range.end <= len {
            range.end - range.start
        } else if range.start <= range.end && range.start <= len {
            len - range.start
        } else {
            0
        }
    }

    /// Returns the leading `len` bytes of `range` as a range,
    /// or `OutOfBounds` if `range` or the hive does not hold that many.
    pub fn sub(&self, range: &Range<usize>, len: usize) -> (sub: Result<Range<usize>, NtHiveError>)
        ensures
            sub == checked_sub(self@.len(), *range, len),
            sub matches Ok(inner) ==> range.start == inner.start && inner.end <= range.end
                && inner.end <= self@.len() && inner.end - inner.start == len,
    {
        let available = self.available(range);
        if range.start <= range.end && range.start <= self.data.len() && len <= available {
            Ok(range.start..range.start + len)
        } else {
            Err(NtHiveError::OutOfBounds { offset: range.start, needed: len, available })
        }
    }

    /// Reads the little-endian 16-bit integer at the start of `range`,
    /// or returns `OutOfBounds` if `range` or the hive does not hold two bytes there.
    pub fn read_u16_le(&self, range: &Range<usize>) -> (value: Result<u16, NtHiveError>)
        ensures
            match checked_sub(self@.len(), *range, 2) {
                Ok(field) => value == Ok::<u16, NtHiveError>(
                    le_u16(self@.subrange(field.start as int, field.end as int)),
                ),
                Err(e) => value == Err::<u16, NtHiveError>(e),
            },
    {
        match self.sub(range, 2) {
            Ok(field) => Ok(self.u16_at(field.start)),
            Err(e) => Err(e),
        }
    }

    /// Reads the little-endian 32-bit integer at the start of `range`,
    /// or returns `OutOfBounds` if `range` or the hive does not hold four bytes there.
    pub fn read_u32_le(&self, range: &Range<usize>) -> (value: Result<u32, NtHiveError>)
        ensures
            match checked_sub(self@.len(), *range, 4) {
                Ok(field) => value == Ok::<u32, NtHiveError>(
                    le_u32(self@.subrange(field.start as int, field.end as int)),
                ),
                Err(e) => value == Err::<u32, NtHiveError>(e),
            },
    {
        match self.sub(range, 4) {
            Ok(field) => Ok(self.u32_at(field.start)),
            Err(e) => Err(e),
        }
    }

    /// Returns the position in the hive that a data offset refers to.
    pub fn offset_of_data_offset(&self, data_offset: u32) -> (position: usize)
        ensures
            position == position_of(data_offset),
    {
        if data_offset as usize > usize::MAX - HIVE_BINS_ORIGIN {
            usize::MAX
        } else {
            HIVE_BINS_ORIGIN + data_offset as usize
        }
    }

    /// Resolves a data offset to the cell that it refers to and returns the range of
    /// the cell's bytes, without the cell header.
    ///
    /// Every returned range lies inside the hive.
    pub fn cell_range_from_data_offset(&self, data_offset: u32) -> (cell: Result<
        Range<usize>,
        NtHiveError,
    >)
        ensures
            cell == cell_at(self@, data_offset),
            cell matches Ok(range) ==> range.start + 4 <= range.end <= self@.len(),
    {
        let len = self.data.len();
        let position = self.offset_of_data_offset(data_offset);
        if position >= len {
            return Err(NtHiveError::InvalidDataOffset { offset: position, actual: data_offset });
        }
        if len - position < CELL_HEADER_SIZE {
            return Err(
                NtHiveError::InvalidHeaderSize {
                    offset: position,
                    expected: CELL_HEADER_SIZE,
                    actual: len - position,
                },
            );
        }
        let size = self.i32_at(position);
        if size >= 0 {
            // A cell with a size above zero is free, and none has a size of zero.
            return Err(NtHiveError::InvalidCellSize { offset: position, actual: size });
        }
        let cell_size: u64 = (-(size as i64)) as u64;
        if cell_size < CELL_ALIGNMENT as u64 || cell_size % (CELL_ALIGNMENT as u64) != 0
            || cell_size > (len - position) as u64 {
            return Err(NtHiveError::InvalidCellSize { offset: position, actual: size });
        }
        Ok(position + CELL_HEADER_SIZE..position + cell_size as usize)
    }
}

} // verus!
