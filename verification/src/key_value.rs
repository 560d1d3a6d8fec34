//! Key Values: a name, a data type and data, attached to a Key Node.
use crate::big_data::{
    big_data_list_at, bytes_of_ranges, segments_from, BigDataSlices, BIG_DATA_SEGMENT_SIZE,
};
use crate::bytes::{
    be_u32, byte_subrange, le_u16, le_u32, le_u64, u32_from_be_bytes, u32_from_le_bytes,
    u64_from_le_bytes,
};
use crate::error::NtHiveError;
use crate::hive::{cell_at, position_of, two_bytes_at, Hive};
use crate::multi_sz::RegMultiSZStrings;
use crate::string::NtHiveNameString;
use crate::text::{
    chars_of_ranges, has_nul, lemma_no_nul, lemma_nul_in_concat, push_until_nul, segment_chars,
    until_nul,
};
use crate::units::{CodeUnitIter, CodeUnitSource};
use core::ops::Range;
use vstd::prelude::*;

verus! {

/// This bit in the data size field indicates that the data is small enough to be stored
/// in the data offset field itself.
pub const DATA_STORED_IN_DATA_OFFSET: u32 = 0x8000_0000;

/// This bit in the flags indicates that the name is in Latin1 instead of UTF-16LE.
pub const VALUE_COMP_NAME: u16 = 0x0001;

/// The size of a Key Value header: all fields before the name.
///
/// | at | bytes | field |
/// |---:|------:|-------|
/// | 0  | 2 | signature `vk` |
/// | 2  | 2 | length of the name in bytes |
/// | 4  | 4 | size of the data, with the bit that marks inline data |
/// | 8  | 4 | data offset of the data, or the data itself |
/// | 12 | 4 | data type |
/// | 16 | 2 | flags |
/// | 18 | 2 | spare |
pub const KEY_VALUE_HEADER_SIZE: usize = 20;

/// The signature of a Key Value header: `vk`.
pub const KEY_VALUE_SIGNATURE: [u8; 2] = [0x76, 0x6b];

/// The data types that have a string as data.
pub const STRING_DATA_TYPES: [KeyValueDataType; 2] = [
    KeyValueDataType::RegSZ,
    KeyValueDataType::RegExpandSZ,
];

/// The data types that have a 32-bit integer as data.
pub const DWORD_DATA_TYPES: [KeyValueDataType; 2] = [
    KeyValueDataType::RegDWord,
    KeyValueDataType::RegDWordBigEndian,
];

/// The data type that has a list of strings as data.
pub const MULTI_STRING_DATA_TYPES: [KeyValueDataType; 1] = [KeyValueDataType::RegMultiSZ];

/// The data type that has a 64-bit integer as data.
pub const QWORD_DATA_TYPES: [KeyValueDataType; 1] = [KeyValueDataType::RegQWord];

/// Possible data types of the data belonging to a [`KeyValue`].
#[derive(Clone, Copy, Debug, Eq, PartialEq)]
pub enum KeyValueDataType {
    RegNone,
    RegSZ,
    RegExpandSZ,
    RegBinary,
    RegDWord,
    RegDWordBigEndian,
    RegLink,
    RegMultiSZ,
    RegResourceList,
    RegFullResourceDescriptor,
    RegResourceRequirementsList,
    RegQWord,
}

impl KeyValueDataType {
    /// The data type that a code stands for, if it is one of the known codes.
    pub open spec fn from_code(code: u32) -> Option<KeyValueDataType> {
        if code == 0 {
            Some(KeyValueDataType::RegNone)
        } else if code == 1 {
            Some(KeyValueDataType::RegSZ)
        } else if code == 2 {
            Some(KeyValueDataType::RegExpandSZ)
        } else if code == 3 {
            Some(KeyValueDataType::RegBinary)
        } else if code == 4 {
            Some(KeyValueDataType::RegDWord)
        } else if code == 5 {
            Some(KeyValueDataType::RegDWordBigEndian)
        } else if code == 6 {
            Some(KeyValueDataType::RegLink)
        } else if code == 7 {
            Some(KeyValueDataType::RegMultiSZ)
        } else if code == 8 {
            Some(KeyValueDataType::RegResourceList)
        } else if code == 9 {
            Some(KeyValueDataType::RegFullResourceDescriptor)
        } else if code == 10 {
            Some(KeyValueDataType::RegResourceRequirementsList)
        } else if code == 11 {
            Some(KeyValueDataType::RegQWord)
        } else {
            None
        }
    }

    /// The code that the hive stores for a data type.
    pub open spec fn code_of(self) -> u32 {
        match self {
            KeyValueDataType::RegNone => 0,
            KeyValueDataType::RegSZ => 1,
            KeyValueDataType::RegExpandSZ => 2,
            KeyValueDataType::RegBinary => 3,
            KeyValueDataType::RegDWord => 4,
            KeyValueDataType::RegDWordBigEndian => 5,
            KeyValueDataType::RegLink => 6,
            KeyValueDataType::RegMultiSZ => 7,
            KeyValueDataType::RegResourceList => 8,
            KeyValueDataType::RegFullResourceDescriptor => 9,
            KeyValueDataType::RegResourceRequirementsList => 10,
            KeyValueDataType::RegQWord => 11,
        }
    }

    /// Returns the data type with the given code, or `None` for an unknown code.
    pub fn n(code: u32) -> (data_type: Option<KeyValueDataType>)
        ensures
            data_type == Self::from_code(code),
    {
        match code {
            0 => Some(KeyValueDataType::RegNone),
            1 => Some(KeyValueDataType::RegSZ),
            2 => Some(KeyValueDataType::RegExpandSZ),
            3 => Some(KeyValueDataType::RegBinary),
            4 => Some(KeyValueDataType::RegDWord),
            5 => Some(KeyValueDataType::RegDWordBigEndian),
            6 => Some(KeyValueDataType::RegLink),
            7 => Some(KeyValueDataType::RegMultiSZ),
            8 => Some(KeyValueDataType::RegResourceList),
            9 => Some(KeyValueDataType::RegFullResourceDescriptor),
            10 => Some(KeyValueDataType::RegResourceRequirementsList),
            11 => Some(KeyValueDataType::RegQWord),
            _ => None,
        }
    }

    /// Returns the code that the hive stores for this data type.
    pub fn code(self) -> (code: u32)
        ensures
            code == self.code_of(),
            Self::from_code(code) == Some(self),
    {
        match self {
            KeyValueDataType::RegNone => 0,
            KeyValueDataType::RegSZ => 1,
            KeyValueDataType::RegExpandSZ => 2,
            KeyValueDataType::RegBinary => 3,
            KeyValueDataType::RegDWord => 4,
            KeyValueDataType::RegDWordBigEndian => 5,
            KeyValueDataType::RegLink => 6,
            KeyValueDataType::RegMultiSZ => 7,
            KeyValueDataType::RegResourceList => 8,
            KeyValueDataType::RegFullResourceDescriptor => 9,
            KeyValueDataType::RegResourceRequirementsList => 10,
            KeyValueDataType::RegQWord => 11,
        }
    }
}

/// The name length that the header at `header` declares, in bytes.
pub open spec fn name_length_field(hive: Seq<u8>, header: int) -> u16 {
    le_u16(hive.subrange(header + 2, header + 4))
}

/// The data size field of the header at `header`, with the bit that marks inline data.
pub open spec fn data_size_field(hive: Seq<u8>, header: int) -> u32 {
    le_u32(hive.subrange(header + 4, header + 8))
}

/// The data offset field of the header at `header`.
pub open spec fn data_offset_field(hive: Seq<u8>, header: int) -> u32 {
    le_u32(hive.subrange(header + 8, header + 12))
}

/// The data type code of the header at `header`.
pub open spec fn data_type_field(hive: Seq<u8>, header: int) -> u32 {
    le_u32(hive.subrange(header + 12, header + 16))
}

/// The flags of the header at `header`.
pub open spec fn flags_field(hive: Seq<u8>, header: int) -> u16 {
    le_u16(hive.subrange(header + 16, header + 18))
}

/// Whether a data size field says that the data is stored in the data offset field.
pub open spec fn stored_inline(size_field: u32) -> bool {
    size_field >= DATA_STORED_IN_DATA_OFFSET
}

/// The data size that a data size field declares: its low 31 bits.
pub open spec fn declared_size(size_field: u32) -> u32 {
    if size_field >= DATA_STORED_IN_DATA_OFFSET {
        (size_field - DATA_STORED_IN_DATA_OFFSET) as u32
    } else {
        size_field
    }
}

/// Where the data of a Key Value is.
pub enum DataLocation {
    /// The data is one contiguous range of the hive.
    Small(Range<usize>),
    /// The data is Big Data of `data_size` bytes, and the data offset of its first
    /// segment is stored at `list_position`.
    Big { list_position: usize, data_size: usize },
}

/// Where the data is that the Key Value header at `header` refers to, or what is wrong with it.
///
/// * Inline data is the first bytes of the data offset field. More than four are
///   an `InvalidSizeField`.
/// * Data of up to 16344 bytes is the first bytes of the cell at the data offset.
///   A cell that does not resolve is reported as by [`cell_at`], one that is too small
///   as `InvalidDataSize`.
/// * Larger data is Big Data, whose header is in the cell at the data offset.
///   What can be wrong with it is reported as by [`big_data_list_at`].
pub open spec fn data_location(hive: Seq<u8>, header: int) -> Result<DataLocation, NtHiveError> {
    let size_field = data_size_field(hive, header);
    let size = declared_size(size_field);
    if stored_inline(size_field) {
        if size > 4 {
            Err(
                NtHiveError::InvalidSizeField {
                    offset: (header + 4) as usize,
                    expected: 4,
                    actual: size as usize,
                },
            )
        } else {
            Ok(
                DataLocation::Small(
                    Range { start: (header + 8) as usize, end: (header + 8 + size) as usize },
                ),
            )
        }
    } else {
        match cell_at(hive, data_offset_field(hive, header)) {
            Err(e) => Err(e),
            Ok(cell) => if size <= BIG_DATA_SEGMENT_SIZE {
                if cell.end - cell.start < size {
                    Err(
                        NtHiveError::InvalidDataSize {
                            offset: cell.start,
                            expected: size as usize,
                            actual: (cell.end - cell.start) as usize,
                        },
                    )
                } else {
                    Ok(DataLocation::Small(Range { start: cell.start, end: (cell.start + size) as usize }))
                }
            } else {
                match big_data_list_at(hive, size, (header + 4) as usize, cell) {
                    Err(e) => Err(e),
                    Ok(list_position) => Ok(
                        DataLocation::Big {
                            list_position: list_position as usize,
                            data_size: size as usize,
                        },
                    ),
                }
            },
        }
    }
}

/// The data type of the Key Value header at `header`, or `UnsupportedKeyValueDataType`
/// for a code that stands for none.
pub open spec fn data_type_at(hive: Seq<u8>, header: int) -> Result<KeyValueDataType, NtHiveError> {
    match KeyValueDataType::from_code(data_type_field(hive, header)) {
        Some(data_type) => Ok(data_type),
        None => Err(
            NtHiveError::UnsupportedKeyValueDataType {
                offset: (header + 12) as usize,
                actual: data_type_field(hive, header),
            },
        ),
    }
}

/// The range of the name of the Key Value whose header is at `header` and whose cell
/// ends at `cell_end`: the bytes right after the header, as many as the header declares;
/// or `InvalidSizeField` if the cell does not hold that many.
pub open spec fn name_range_at(hive: Seq<u8>, header: int, cell_end: int) -> Result<
    Range<usize>,
    NtHiveError,
> {
    let name_start = header + KEY_VALUE_HEADER_SIZE;
    let name_length = name_length_field(hive, header);
    if name_length <= cell_end - name_start {
        Ok(Range { start: name_start as usize, end: (name_start + name_length) as usize })
    } else {
        Err(
            NtHiveError::InvalidSizeField {
                offset: (header + 2) as usize,
                expected: name_length as usize,
                actual: (cell_end - name_start) as usize,
            },
        )
    }
}

/// Whether the flags of the header at `header` say that the name is in Latin1.
pub open spec fn name_is_latin1(hive: Seq<u8>, header: int) -> bool {
    flags_field(hive, header) % 2 == 1
}

/// What a cell holds that should hold a Key Value: the position of its header,
/// or `InvalidHeaderSize` for a cell that is too small for one,
/// or `InvalidTwoByteSignature` for one that does not begin with `vk`.
pub open spec fn key_value_at(hive: Seq<u8>, cell: Range<usize>) -> Result<usize, NtHiveError> {
    if cell.end - cell.start < KEY_VALUE_HEADER_SIZE {
        Err(
            NtHiveError::InvalidHeaderSize {
                offset: cell.start,
                expected: KEY_VALUE_HEADER_SIZE,
                actual: (cell.end - cell.start) as usize,
            },
        )
    } else if two_bytes_at(hive, cell.start as int) != KEY_VALUE_SIGNATURE {
        Err(
            NtHiveError::InvalidTwoByteSignature {
                offset: cell.start,
                expected: KEY_VALUE_SIGNATURE,
                actual: two_bytes_at(hive, cell.start as int),
            },
        )
    } else {
        Ok(cell.start)
    }
}

/// The Key Value that a data offset refers to, as the range of its cell,
/// or what is wrong with the cell or with the header in it.
pub open spec fn key_value_cell(hive: Seq<u8>, data_offset: u32) -> Result<
    Range<usize>,
    NtHiveError,
> {
    match cell_at(hive, data_offset) {
        Err(e) => Err(e),
        Ok(cell) => match key_value_at(hive, cell) {
            Err(e) => Err(e),
            Ok(_) => Ok(cell),
        },
    }
}

/// The name of the Key Value whose header is at `header`, as code units.
pub open spec fn value_name_units(hive: Seq<u8>, header: int, cell_end: int) -> Result<
    Seq<u16>,
    NtHiveError,
> {
    match name_range_at(hive, header, cell_end) {
        Err(e) => Err(e),
        Ok(range) => Ok(
            if name_is_latin1(hive, header) {
                crate::units::latin1_units(hive.subrange(range.start as int, range.end as int))
            } else {
                crate::units::utf16le_units(hive.subrange(range.start as int, range.end as int))
            },
        ),
    }
}

/// The name of the Key Value that a data offset refers to, as code units,
/// or what is wrong with the Key Value or with its name.
#[verifier::opaque]
pub open spec fn value_name(hive: Seq<u8>, data_offset: u32) -> Result<Seq<u16>, NtHiveError> {
    match key_value_cell(hive, data_offset) {
        Err(e) => Err(e),
        Ok(cell) => value_name_units(hive, cell.start as int, cell.end as int),
    }
}

/// Whether `result` is what reading the Key Value at `data_offset` gives:
/// the Key Value in the cell that the data offset refers to, or what is wrong with it.
pub open spec fn reads_key_value(
    result: Result<KeyValue<'_>, NtHiveError>,
    hive: Seq<u8>,
    data_offset: u32,
) -> bool {
    match key_value_cell(hive, data_offset) {
        Ok(cell) => result is Ok && result->Ok_0.hive() == hive && result->Ok_0.header()
            == cell.start && result->Ok_0.cell_end() == cell.end,
        Err(e) => result is Err && result->Err_0 == e,
    }
}

/// The 32-bit integer that the Key Value header at `header` has as data.
///
/// * Whatever is wrong with the location of the data is reported as by [`data_location`].
/// * Data that is not exactly four bytes long is an `InvalidDataSize`.
/// * `REG_DWORD` data is read in little-endian order, `REG_DWORD_BIG_ENDIAN` data in
///   big-endian order, and any other data type is an `InvalidKeyValueDataType`.
pub open spec fn dword_at(hive: Seq<u8>, header: int) -> Result<u32, NtHiveError> {
    match data_location(hive, header) {
        Err(e) => Err(e),
        Ok(DataLocation::Small(range)) => if range.end - range.start != 4 {
            Err(
                NtHiveError::InvalidDataSize {
                    offset: range.start,
                    expected: 4,
                    actual: (range.end - range.start) as usize,
                },
            )
        } else {
            match data_type_at(hive, header) {
                Err(e) => Err(e),
                Ok(KeyValueDataType::RegDWord) => Ok(
                    le_u32(hive.subrange(range.start as int, range.end as int)),
                ),
                Ok(KeyValueDataType::RegDWordBigEndian) => Ok(
                    be_u32(hive.subrange(range.start as int, range.end as int)),
                ),
                Ok(data_type) => Err(
                    NtHiveError::InvalidKeyValueDataType {
                        expected: &DWORD_DATA_TYPES,
                        actual: data_type,
                    },
                ),
            }
        },
        Ok(DataLocation::Big { list_position, data_size }) => Err(
            NtHiveError::InvalidDataSize {
                offset: position_of(data_offset_field(hive, header)),
                expected: 4,
                actual: data_size,
            },
        ),
    }
}

/// The 64-bit integer that the Key Value header at `header` has as data.
///
/// * Whatever is wrong with the location of the data is reported as by [`data_location`].
/// * Data that is not exactly eight bytes long is an `InvalidDataSize`.
/// * `REG_QWORD` data is read in little-endian order, and any other data type is an
///   `InvalidKeyValueDataType`.
pub open spec fn qword_at(hive: Seq<u8>, header: int) -> Result<u64, NtHiveError> {
    match data_location(hive, header) {
        Err(e) => Err(e),
        Ok(DataLocation::Small(range)) => if range.end - range.start != 8 {
            Err(
                NtHiveError::InvalidDataSize {
                    offset: range.start,
                    expected: 8,
                    actual: (range.end - range.start) as usize,
                },
            )
        } else {
            match data_type_at(hive, header) {
                Err(e) => Err(e),
                Ok(KeyValueDataType::RegQWord) => Ok(
                    le_u64(hive.subrange(range.start as int, range.end as int)),
                ),
                Ok(data_type) => Err(
                    NtHiveError::InvalidKeyValueDataType {
                        expected: &QWORD_DATA_TYPES,
                        actual: data_type,
                    },
                ),
            }
        },
        Ok(DataLocation::Big { list_position, data_size }) => Err(
            NtHiveError::InvalidDataSize {
                offset: position_of(data_offset_field(hive, header)),
                expected: 8,
                actual: data_size,
            },
        ),
    }
}

/// The string that a stream of characters holds which may end early in a fault:
/// the characters before the first NUL character if the fault does not come first,
/// else that fault, and all characters if there is neither.
pub open spec fn text_of(chars: Seq<char>, error: Option<NtHiveError>) -> Result<
    Seq<char>,
    NtHiveError,
> {
    if has_nul(chars) {
        Ok(until_nul(chars))
    } else {
        match error {
            Some(e) => Err(e),
            None => Ok(chars),
        }
    }
}

/// The string that the Key Value header at `header` has as data.
///
/// * A data type that is unknown is reported as by [`data_type_at`], one that is
///   neither `REG_SZ` nor `REG_EXPAND_SZ` as `InvalidKeyValueDataType`.
/// * Whatever is wrong with the location of the data is reported as by [`data_location`].
/// * The data is read as UTF-16LE, each segment of Big Data on its own, and the
///   string ends before the first NUL character or with the data.
/// * A segment of Big Data that cannot be read is reported if no NUL character comes
///   before it.
pub open spec fn string_at(hive: Seq<u8>, header: int) -> Result<Seq<char>, NtHiveError> {
    match data_type_at(hive, header) {
        Err(e) => Err(e),
        Ok(data_type) => if data_type != KeyValueDataType::RegSZ && data_type
            != KeyValueDataType::RegExpandSZ {
            Err(
                NtHiveError::InvalidKeyValueDataType {
                    expected: &STRING_DATA_TYPES,
                    actual: data_type,
                },
            )
        } else {
            match data_location(hive, header) {
                Err(e) => Err(e),
                Ok(DataLocation::Small(range)) => Ok(
                    until_nul(segment_chars(hive.subrange(range.start as int, range.end as int))),
                ),
                Ok(DataLocation::Big { list_position, data_size }) => text_of(
                    chars_of_ranges(
                        hive,
                        segments_from(hive, list_position as int, data_size as int).0,
                    ),
                    segments_from(hive, list_position as int, data_size as int).1,
                ),
            }
        },
    }
}

/// The characters that the Key Value header at `header` has as a list of strings, and the
/// fault that they end in, if any.
///
/// * A data type that is unknown is reported as by [`data_type_at`], one that is
///   not `REG_MULTI_SZ` as `InvalidKeyValueDataType`.
/// * Whatever is wrong with the location of the data is reported as by [`data_location`].
/// * The data is read as UTF-16LE, each segment of Big Data on its own. A segment
///   that cannot be read ends the characters.
pub open spec fn multi_string_at(hive: Seq<u8>, header: int) -> Result<
    (Seq<char>, Option<NtHiveError>),
    NtHiveError,
> {
    match data_type_at(hive, header) {
        Err(e) => Err(e),
        Ok(data_type) => if data_type != KeyValueDataType::RegMultiSZ {
            Err(
                NtHiveError::InvalidKeyValueDataType {
                    expected: &MULTI_STRING_DATA_TYPES,
                    actual: data_type,
                },
            )
        } else {
            match data_location(hive, header) {
                Err(e) => Err(e),
                Ok(DataLocation::Small(range)) => Ok(
                    (segment_chars(hive.subrange(range.start as int, range.end as int)), None),
                ),
                Ok(DataLocation::Big { list_position, data_size }) => Ok(
                    (
                        chars_of_ranges(
                            hive,
                            segments_from(hive, list_position as int, data_size as int).0,
                        ),
                        segments_from(hive, list_position as int, data_size as int).1,
                    ),
                ),
            }
        },
    }
}

/// Where a `REG_DWORD` value has data of four bytes, [`KeyValue::dword_data`] returns what
/// these bytes, as [`KeyValue::data`] returns them, are in little-endian order.
pub proof fn law_dword_round_trip(hive: Seq<u8>, header: int)
    requires
        data_type_field(hive, header) == 4,
        data_location(hive, header) matches Ok(DataLocation::Small(range)) && range.end
            - range.start == 4,
    ensures
        data_location(hive, header) matches Ok(DataLocation::Small(range)) && dword_at(
            hive,
            header,
        ) == Ok::<u32, NtHiveError>(le_u32(hive.subrange(range.start as int, range.end as int))),
{
}

/// Where a `REG_QWORD` value has data of eight bytes, [`KeyValue::qword_data`] returns what
/// these bytes, as [`KeyValue::data`] returns them, are in little-endian order.
pub proof fn law_qword_round_trip(hive: Seq<u8>, header: int)
    requires
        data_type_field(hive, header) == 11,
        data_location(hive, header) matches Ok(DataLocation::Small(range)) && range.end
            - range.start == 8,
    ensures
        data_location(hive, header) matches Ok(DataLocation::Small(range)) && qword_at(
            hive,
            header,
        ) == Ok::<u64, NtHiveError>(le_u64(hive.subrange(range.start as int, range.end as int))),
{
}

/// Where the data of a Key Value was found: in one range of the hive, or in Big Data.
enum LocatedData<'h> {
    Small(Range<usize>),
    Big(BigDataSlices<'h>),
}

/// Zero-copy representation of raw Key Value data, returned by [`KeyValue::data`].
#[derive(Clone, Copy, Debug)]
pub enum KeyValueData<'h> {
    /// The data fits into a single cell.
    /// Contains the contiguous range of data bytes.
    Small(&'h [u8]),
    /// The data is big enough to require more than one cell.
    /// Contains an iterator that returns the data byte slice for each cell.
    Big(BigDataSlices<'h>),
}

impl<'h> KeyValueData<'h> {
    /// All bytes of the data, or the fault that keeps a segment of Big Data from being read.
    pub open spec fn bytes(&self) -> Result<Seq<u8>, NtHiveError> {
        match self {
            KeyValueData::Small(data) => Ok(data@),
            KeyValueData::Big(iter) => match iter.segments().1 {
                Some(e) => Err(e),
                None => Ok(bytes_of_ranges(iter.hive(), iter.segments().0)),
            },
        }
    }

    /// Copies the data into a vector, all segments of Big Data one after the other.
    pub fn into_vec(self) -> (data: Result<Vec<u8>, NtHiveError>)
        ensures
            match self.bytes() {
                Ok(bytes) => data is Ok && data->Ok_0@ == bytes,
                Err(e) => data == Err::<Vec<u8>, NtHiveError>(e),
            },
    {
        match self {
            KeyValueData::Small(data) => Ok(vstd::slice::slice_to_vec(data)),
            KeyValueData::Big(iter) => {
                let mut iter = iter;
                let mut data: Vec<u8> = Vec::new();
                let ghost all = self.bytes();
                let ghost hive = iter.hive();
                loop
                    invariant
                        all == self.bytes(),
                        iter.hive() == hive,
                        all == (match iter.segments().1 {
                            Some(e) => Err::<Seq<u8>, NtHiveError>(e),
                            None => Ok::<Seq<u8>, NtHiveError>(
                                data@ + bytes_of_ranges(hive, iter.segments().0),
                            ),
                        }),
                    ensures
                        all == Ok::<Seq<u8>, NtHiveError>(data@),
                    decreases iter.bytes_left(),
                {
                    let ghost before = iter;
                    let ghost old_data = data@;
                    match iter.next() {
                        None => {
                            assert(old_data + bytes_of_ranges(hive, before.segments().0)
                                =~= old_data);
                            break ;
                        },
                        Some(Err(e)) => {
                            return Err(e);
                        },
                        Some(Ok(slice_data)) => {
                            data.extend_from_slice(slice_data);
                            assert(data@ + bytes_of_ranges(hive, iter.segments().0) =~= old_data
                                + bytes_of_ranges(hive, before.segments().0));
                        },
                    }
                }
                Ok(data)
            },
        }
    }
}

/// A single value that belongs to a Key Node.
/// It has a name and attached data.
///
/// On-Disk Signature: `vk`
#[derive(Clone, Copy, Debug)]
pub struct KeyValue<'h> {
    hive: Hive<'h>,
    header_start: usize,
    cell_end: usize,
}

impl<'h> KeyValue<'h> {
    #[verifier::type_invariant]
    spec fn well_formed(&self) -> bool {
        &&& self.header_start + KEY_VALUE_HEADER_SIZE <= self.cell_end <= self.hive@.len()
        &&& two_bytes_at(self.hive@, self.header_start as int) == KEY_VALUE_SIGNATURE
    }

    /// The bytes of the hive that this Key Value is read from.
    pub closed spec fn hive(&self) -> Seq<u8> {
        self.hive@
    }

    /// The position of the header of this Key Value in the hive.
    pub closed spec fn header(&self) -> int {
        self.header_start as int
    }

    /// The position right after the cell of this Key Value.
    pub closed spec fn cell_end(&self) -> int {
        self.cell_end as int
    }

    /// Reads the Key Value in the cell `cell_range`.
    pub fn new(hive: Hive<'h>, cell_range: Range<usize>) -> (key_value: Result<Self, NtHiveError>)
        requires
            cell_range.start <= cell_range.end <= hive@.len(),
        ensures
            match key_value_at(hive@, cell_range) {
                Ok(header) => key_value is Ok && key_value->Ok_0.hive() == hive@
                    && key_value->Ok_0.header() == header && key_value->Ok_0.cell_end()
                    == cell_range.end,
                Err(e) => key_value == Err::<Self, NtHiveError>(e),
            },
    {
        let header_range = match byte_subrange(&cell_range, KEY_VALUE_HEADER_SIZE) {
            Some(header_range) => header_range,
            None => {
                return Err(
                    NtHiveError::InvalidHeaderSize {
                        offset: cell_range.start,
                        expected: KEY_VALUE_HEADER_SIZE,
                        actual: cell_range.end - cell_range.start,
                    },
                );
            },
        };
        match Self::validate_signature(&hive, header_range.start) {
            Ok(()) => Ok(
                KeyValue { hive, header_start: header_range.start, cell_end: cell_range.end },
            ),
            Err(e) => Err(e),
        }
    }

    /// Reads the Key Value that a data offset refers to.
    pub fn from_data_offset(hive: Hive<'h>, data_offset: u32) -> (key_value: Result<
        Self,
        NtHiveError,
    >)
        ensures
            reads_key_value(key_value, hive@, data_offset),
    {
        match hive.cell_range_from_data_offset(data_offset) {
            Ok(cell_range) => Self::new(hive, cell_range),
            Err(e) => Err(e),
        }
    }

    fn validate_signature(hive: &Hive<'h>, header_start: usize) -> (valid: Result<(), NtHiveError>)
        requires
            header_start + 2 <= hive@.len(),
        ensures
            two_bytes_at(hive@, header_start as int) == KEY_VALUE_SIGNATURE ==> valid is Ok,
            two_bytes_at(hive@, header_start as int) != KEY_VALUE_SIGNATURE ==> valid == Err::<
                (),
                NtHiveError,
            >(
                NtHiveError::InvalidTwoByteSignature {
                    offset: header_start,
                    expected: KEY_VALUE_SIGNATURE,
                    actual: two_bytes_at(hive@, header_start as int),
                },
            ),
    {
        let signature = hive.signature_at(header_start);
        if signature[0] == KEY_VALUE_SIGNATURE[0] && signature[1] == KEY_VALUE_SIGNATURE[1] {
            assert(signature =~= KEY_VALUE_SIGNATURE);
            Ok(())
        } else {
            Err(
                NtHiveError::InvalidTwoByteSignature {
                    offset: header_start,
                    expected: KEY_VALUE_SIGNATURE,
                    actual: signature,
                },
            )
        }
    }

    /// Returns the position of the header of this Key Value in the hive.
    pub fn offset(&self) -> (offset: usize)
        ensures
            offset == self.header(),
    {
        self.header_start
    }

    /// Finds the data: a range of the hive, or an iterator over the segments of Big Data.
    fn locate_data(&self) -> (location: Result<LocatedData<'h>, NtHiveError>)
        ensures
            match data_location(self.hive(), self.header()) {
                Ok(DataLocation::Small(range)) => {
                    &&& location matches Ok(LocatedData::Small(found))
                    &&& found == range
                    &&& range.start <= range.end <= self.hive().len()
                },
                Ok(DataLocation::Big { list_position, data_size }) => {
                    &&& location matches Ok(LocatedData::Big(iter))
                    &&& iter.hive() == self.hive()
                    &&& iter.list_position() == list_position
                    &&& iter.bytes_left() == data_size
                },
                Err(e) => location matches Err(actual) && actual == e,
            },
    {
        proof {
            use_type_invariant(self);
        }
        let size_field = self.hive.u32_at(self.header_start + 4);
        let data_stored_in_data_offset = size_field & DATA_STORED_IN_DATA_OFFSET > 0;
        let data_size = (size_field & !DATA_STORED_IN_DATA_OFFSET) as usize;
        assert((size_field & 0x8000_0000u32 > 0) == (size_field >= 0x8000_0000u32)) by (bit_vector);
        assert(size_field & !0x8000_0000u32 == (if size_field >= 0x8000_0000u32 {
            (size_field - 0x8000_0000u32) as u32
        } else {
            size_field
        })) by (bit_vector);

        if data_stored_in_data_offset {
            // If the entire data is stored in the data offset field, its size mustn't
            // exceed the 4 bytes we have.
            if data_size > 4 {
                return Err(
                    NtHiveError::InvalidSizeField {
                        offset: self.header_start + 4,
                        expected: 4,
                        actual: data_size,
                    },
                );
            }
            let data_start = self.header_start + 8;
            Ok(LocatedData::Small(data_start..data_start + data_size))
        } else {
            let data_offset = self.hive.u32_at(self.header_start + 8);
            let cell_range = match self.hive.cell_range_from_data_offset(data_offset) {
                Ok(cell_range) => cell_range,
                Err(e) => { return Err(e); },
            };
            if data_size <= BIG_DATA_SEGMENT_SIZE {
                // The entire data is stored in a single cell referenced by the data offset.
                if cell_range.end - cell_range.start < data_size {
                    return Err(
                        NtHiveError::InvalidDataSize {
                            offset: cell_range.start,
                            expected: data_size,
                            actual: cell_range.end - cell_range.start,
                        },
                    );
                }
                Ok(LocatedData::Small(cell_range.start..cell_range.start + data_size))
            } else {
                // The data size exceeds what can be stored in a single cell.
                // It's therefore stored in a Big Data structure referencing multiple cells.
                match BigDataSlices::new(
                    self.hive,
                    data_size as u32,
                    self.header_start + 4,
                    cell_range,
                ) {
                    Ok(iter) => Ok(LocatedData::Big(iter)),
                    Err(e) => Err(e),
                }
            }
        }
    }

    /// Returns the raw data bytes as [`KeyValueData`].
    pub fn data(&self) -> (data: Result<KeyValueData<'h>, NtHiveError>)
        ensures
            match data_location(self.hive(), self.header()) {
                Ok(DataLocation::Small(range)) => {
                    &&& data matches Ok(KeyValueData::Small(bytes))
                    &&& bytes@ == self.hive().subrange(range.start as int, range.end as int)
                },
                Ok(DataLocation::Big { list_position, data_size }) => {
                    &&& data matches Ok(KeyValueData::Big(iter))
                    &&& iter.hive() == self.hive()
                    &&& iter.list_position() == list_position
                    &&& iter.bytes_left() == data_size
                },
                Err(e) => data matches Err(actual) && actual == e,
            },
    {
        match self.locate_data() {
            Ok(LocatedData::Big(iter)) => Ok(KeyValueData::Big(iter)),
            Ok(LocatedData::Small(range)) => Ok(KeyValueData::Small(self.hive.bytes(&range))),
            Err(e) => Err(e),
        }
    }

    /// Reads a string off the segments of Big Data: a very long string may be split
    /// over several segments, which are concatenated in the output string.
    pub fn utf16le_to_string_lossy(iter: BigDataSlices<'h>) -> (string: Result<String, NtHiveError>)
        ensures
            match text_of(chars_of_ranges(iter.hive(), iter.segments().0), iter.segments().1) {
                Ok(chars) => string is Ok && string->Ok_0@ == chars,
                Err(e) => string == Err::<String, NtHiveError>(e),
            },
    {
        let mut segments = iter;
        let mut string = String::new();
        let ghost hive = iter.hive();
        let ghost total = text_of(chars_of_ranges(hive, iter.segments().0), iter.segments().1);
        assert(string@ + chars_of_ranges(hive, iter.segments().0) =~= chars_of_ranges(
            hive,
            iter.segments().0,
        ));
        loop
            invariant
                hive == iter.hive(),
                segments.hive() == hive,
                total == text_of(chars_of_ranges(hive, iter.segments().0), iter.segments().1),
                total == text_of(
                    string@ + chars_of_ranges(hive, segments.segments().0),
                    segments.segments().1,
                ),
                !has_nul(string@),
            decreases segments.bytes_left(),
        {
            let ghost before = segments;
            let ghost collected = string@;
            match segments.next() {
                None => {
                    assert(collected + chars_of_ranges(hive, before.segments().0) =~= collected);
                    return Ok(string);
                },
                Some(Err(e)) => {
                    assert(collected + chars_of_ranges(hive, before.segments().0) =~= collected);
                    return Err(e);
                },
                Some(Ok(slice_data)) => {
                    let mut chars = CodeUnitIter::new(CodeUnitSource::Utf16LE(slice_data));
                    let ghost segment = segment_chars(slice_data@);
                    let ghost later = chars_of_ranges(hive, segments.segments().0);
                    // Some applications erroneously store NUL-terminated strings in the registry.
                    // To cope with that, we either stop at the first NUL character or when no more
                    // characters are left, whatever comes first.
                    let found = push_until_nul(&mut string, &mut chars);
                    proof {
                        assert(chars_of_ranges(hive, before.segments().0) == segment + later);
                        assert(collected + (segment + later) =~= (collected + segment) + later);
                        lemma_nul_in_concat(collected, segment);
                        lemma_nul_in_concat(collected + segment, later);
                        if found {
                            assert(until_nul(collected + segment) == collected + until_nul(
                                segment,
                            ));
                        } else {
                            lemma_no_nul(segment);
                        }
                    }
                    if found {
                        return Ok(string);
                    }
                },
            }
        }
    }

    /// Checks if this is a `REG_SZ` or `REG_EXPAND_SZ` Key Value
    /// and returns the data as a [`String`] in that case.
    pub fn string_data(&self) -> (string: Result<String, NtHiveError>)
        ensures
            match string_at(self.hive(), self.header()) {
                Ok(chars) => string is Ok && string->Ok_0@ == chars,
                Err(e) => string == Err::<String, NtHiveError>(e),
            },
    {
        match self.data_type() {
            Err(e) => { return Err(e); },
            Ok(KeyValueDataType::RegSZ) | Ok(KeyValueDataType::RegExpandSZ) => (),
            Ok(data_type) => {
                return Err(
                    NtHiveError::InvalidKeyValueDataType {
                        expected: &STRING_DATA_TYPES,
                        actual: data_type,
                    },
                );
            },
        }

        match self.data() {
            Err(e) => Err(e),
            Ok(KeyValueData::Small(data)) => {
                let mut string = String::new();
                let mut chars = CodeUnitIter::new(CodeUnitSource::Utf16LE(data));
                let _ = push_until_nul(&mut string, &mut chars);
                assert(string@ =~= until_nul(segment_chars(data@)));
                Ok(string)
            },
            Ok(KeyValueData::Big(iter)) => Self::utf16le_to_string_lossy(iter),
        }
    }

    /// Checks if this is a `REG_DWORD` or `REG_DWORD_BIG_ENDIAN` Key Value
    /// and returns the data as a [`u32`] in that case.
    ///
    /// The integer is what the bytes of [`data`](KeyValue::data) are in the byte order
    /// of the data type.
    pub fn dword_data(&self) -> (value: Result<u32, NtHiveError>)
        ensures
            value == dword_at(self.hive(), self.header()),
    {
        match self.locate_data() {
            Err(e) => Err(e),
            // We got a Big Data structure and this can only happen if the data
            // is much longer than a single DWORD.
            Ok(LocatedData::Big(_)) => {
                proof {
                    use_type_invariant(self);
                }
                let data_offset = self.hive.u32_at(self.header_start + 8);
                Err(
                    NtHiveError::InvalidDataSize {
                        offset: self.hive.offset_of_data_offset(data_offset),
                        expected: 4,
                        actual: self.data_size() as usize,
                    },
                )
            },
            // DWORD data never needs a Big Data structure.
            Ok(LocatedData::Small(range)) => {
                // DWORD data must be exactly 4 bytes long.
                if range.end - range.start != 4 {
                    return Err(
                        NtHiveError::InvalidDataSize {
                            offset: range.start,
                            expected: 4,
                            actual: range.end - range.start,
                        },
                    );
                }
                let data = self.hive.bytes(&range);

                // Ensure that this is a REG_DWORD or REG_DWORD_BIG_ENDIAN data type.
                match self.data_type() {
                    Err(e) => Err(e),
                    Ok(KeyValueDataType::RegDWord) => Ok(u32_from_le_bytes(data)),
                    Ok(KeyValueDataType::RegDWordBigEndian) => Ok(u32_from_be_bytes(data)),
                    Ok(data_type) => Err(
                        NtHiveError::InvalidKeyValueDataType {
                            expected: &DWORD_DATA_TYPES,
                            actual: data_type,
                        },
                    ),
                }
            },
        }
    }

    /// Checks if this is a `REG_MULTI_SZ` Key Value
    /// and returns an iterator over [`String`]s for each line in that case.
    pub fn multi_string_data(&self) -> (strings: Result<RegMultiSZStrings<'h>, NtHiveError>)
        ensures
            match multi_string_at(self.hive(), self.header()) {
                Ok((chars, error)) => {
                    &&& strings matches Ok(iter)
                    &&& iter.pending_chars() == chars
                    &&& iter.pending_error() == error
                },
                Err(e) => strings matches Err(actual) && actual == e,
            },
    {
        // Ensure that this is a REG_MULTI_SZ data type.
        match self.data_type() {
            Err(e) => { return Err(e); },
            Ok(KeyValueDataType::RegMultiSZ) => (),
            Ok(data_type) => {
                return Err(
                    NtHiveError::InvalidKeyValueDataType {
                        expected: &MULTI_STRING_DATA_TYPES,
                        actual: data_type,
                    },
                );
            },
        }

        match self.data() {
            Err(e) => Err(e),
            Ok(KeyValueData::Small(data)) => Ok(RegMultiSZStrings::small(data)),
            Ok(KeyValueData::Big(iter)) => Ok(RegMultiSZStrings::big(iter)),
        }
    }

    /// Checks if this is a `REG_QWORD` Key Value
    /// and returns the data as a [`u64`] in that case.
    ///
    /// The integer is what the bytes of [`data`](KeyValue::data) are in little-endian order.
    pub fn qword_data(&self) -> (value: Result<u64, NtHiveError>)
        ensures
            value == qword_at(self.hive(), self.header()),
    {
        match self.locate_data() {
            Err(e) => Err(e),
            // We got a Big Data structure and this can only happen if the data
            // is much longer than a single QWORD.
            Ok(LocatedData::Big(_)) => {
                proof {
                    use_type_invariant(self);
                }
                let data_offset = self.hive.u32_at(self.header_start + 8);
                Err(
                    NtHiveError::InvalidDataSize {
                        offset: self.hive.offset_of_data_offset(data_offset),
                        expected: 8,
                        actual: self.data_size() as usize,
                    },
                )
            },
            // QWORD data never needs a Big Data structure.
            Ok(LocatedData::Small(range)) => {
                // QWORD data must be exactly 8 bytes long.
                if range.end - range.start != 8 {
                    return Err(
                        NtHiveError::InvalidDataSize {
                            offset: range.start,
                            expected: 8,
                            actual: range.end - range.start,
                        },
                    );
                }
                let data = self.hive.bytes(&range);

                // Ensure that this is a REG_QWORD data type.
                match self.data_type() {
                    Err(e) => Err(e),
                    Ok(KeyValueDataType::RegQWord) => Ok(u64_from_le_bytes(data)),
                    Ok(data_type) => Err(
                        NtHiveError::InvalidKeyValueDataType {
                            expected: &QWORD_DATA_TYPES,
                            actual: data_type,
                        },
                    ),
                }
            },
        }
    }

    /// Returns the size of the raw data.
    pub fn data_size(&self) -> (size: u32)
        ensures
            size == declared_size(data_size_field(self.hive(), self.header())),
    {
        proof {
            use_type_invariant(self);
        }
        let size_field = self.hive.u32_at(self.header_start + 4);
        assert(size_field & !0x8000_0000u32 == (if size_field >= 0x8000_0000u32 {
            (size_field - 0x8000_0000u32) as u32
        } else {
            size_field
        })) by (bit_vector);
        size_field & !DATA_STORED_IN_DATA_OFFSET
    }

    /// Returns the data type of this Key Value.
    pub fn data_type(&self) -> (data_type: Result<KeyValueDataType, NtHiveError>)
        ensures
            data_type == data_type_at(self.hive(), self.header()),
    {
        proof {
            use_type_invariant(self);
        }
        let data_type_code = self.hive.u32_at(self.header_start + 12);
        match KeyValueDataType::n(data_type_code) {
            Some(data_type) => Ok(data_type),
            None => Err(
                NtHiveError::UnsupportedKeyValueDataType {
                    offset: self.header_start + 12,
                    actual: data_type_code,
                },
            ),
        }
    }

    /// Returns the name of this Key Value.
    pub fn name(&self) -> (name: Result<NtHiveNameString<'h>, NtHiveError>)
        ensures
            match name_range_at(self.hive(), self.header(), self.cell_end()) {
                Ok(range) => {
                    &&& name matches Ok(string)
                    &&& string.bytes() == self.hive().subrange(range.start as int, range.end as int)
                    &&& string is Latin1 == name_is_latin1(self.hive(), self.header())
                    &&& value_name_units(self.hive(), self.header(), self.cell_end()) == Ok::<
                        Seq<u16>,
                        NtHiveError,
                    >(string.units())
                },
                Err(e) => {
                    &&& name matches Err(actual)
                    &&& actual == e
                    &&& value_name_units(self.hive(), self.header(), self.cell_end()) == Err::<
                        Seq<u16>,
                        NtHiveError,
                    >(e)
                },
            },
    {
        proof {
            use_type_invariant(self);
        }
        let flags = self.hive.u16_at(self.header_start + 16);
        let name_length = self.hive.u16_at(self.header_start + 2) as usize;
        let data_range = self.header_start + KEY_VALUE_HEADER_SIZE..self.cell_end;

        let name_range = match byte_subrange(&data_range, name_length) {
            Some(name_range) => name_range,
            None => {
                return Err(
                    NtHiveError::InvalidSizeField {
                        offset: self.header_start + 2,
                        expected: name_length,
                        actual: data_range.end - data_range.start,
                    },
                );
            },
        };
        let name_bytes = self.hive.bytes(&name_range);

        assert((flags & 0x0001u16 != 0) == (flags % 2 == 1)) by (bit_vector);
        if flags & VALUE_COMP_NAME != 0 {
            Ok(NtHiveNameString::Latin1(name_bytes))
        } else {
            Ok(NtHiveNameString::Utf16LE(name_bytes))
        }
    }
}

} // verus!
