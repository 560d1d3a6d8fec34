//! Big Data: the data of a Key Value that is too large for one cell and is
//! therefore split into segments, each in a cell of its own.
use crate::bytes::{byte_subrange, le_u16, le_u32};
use crate::error::NtHiveError;
use crate::hive::{cell_at, two_bytes_at, Hive};
use core::ops::Range;
use vstd::prelude::*;

verus! {

/// Number of bytes that a single Big Data segment can hold.
/// Every Big Data segment contains that many data bytes except for the last one.
///
/// This is the usable size of a cell of 16384 bytes: the cell header of 4 bytes,
/// reserved space, and the rest for data.
pub const BIG_DATA_SEGMENT_SIZE: usize = 16344;

/// The size of a Big Data header: signature, segment count, offset of the segment list.
pub const BIG_DATA_HEADER_SIZE: usize = 8;

/// The size of one item of the segment list: the data offset of a segment.
pub const BIG_DATA_LIST_ITEM_SIZE: usize = 4;

/// The signature of a Big Data header: `db`.
pub const BIG_DATA_SIGNATURE: [u8; 2] = [0x64, 0x62];

/// How many bytes the next segment contributes when `bytes_left` are still to come.
pub open spec fn segment_len(bytes_left: int) -> int {
    if bytes_left < BIG_DATA_SEGMENT_SIZE {
        bytes_left
    } else {
        BIG_DATA_SEGMENT_SIZE as int
    }
}

/// The range of data bytes of the segment whose data offset is stored at
/// `list_position`, when `bytes_left` are still to come; or what is wrong
/// with that segment: its cell does not resolve, or is shorter than the data it should hold.
pub open spec fn segment_at(hive: Seq<u8>, list_position: int, bytes_left: int) -> Result<
    Range<usize>,
    NtHiveError,
> {
    let segment_offset = le_u32(
        hive.subrange(list_position, list_position + BIG_DATA_LIST_ITEM_SIZE),
    );
    match cell_at(hive, segment_offset) {
        Err(e) => Err(e),
        Ok(cell) => if cell.end - cell.start < segment_len(bytes_left) {
            Err(
                NtHiveError::InvalidDataSize {
                    offset: cell.start,
                    expected: segment_len(bytes_left) as usize,
                    actual: (cell.end - cell.start) as usize,
                },
            )
        } else {
            Ok(Range { start: cell.start, end: (cell.start + segment_len(bytes_left)) as usize })
        },
    }
}

/// All that is still to come of a Big Data structure: the ranges of the segments that
/// are read without fault, in order, and the fault that ends the sequence early, if any.
#[verifier::opaque]
pub open spec fn segments_from(hive: Seq<u8>, list_position: int, bytes_left: int) -> (
    Seq<Range<usize>>,
    Option<NtHiveError>,
)
    decreases bytes_left,
{
    if bytes_left <= 0 {
        (Seq::empty(), None)
    } else {
        match segment_at(hive, list_position, bytes_left) {
            Err(e) => (Seq::empty(), Some(e)),
            Ok(range) => {
                let rest = segments_from(
                    hive,
                    list_position + BIG_DATA_LIST_ITEM_SIZE,
                    bytes_left - segment_len(bytes_left),
                );
                (seq![range] + rest.0, rest.1)
            },
        }
    }
}

/// The bytes of the given ranges of a hive, one range after the other.
pub open spec fn bytes_of_ranges(hive: Seq<u8>, ranges: Seq<Range<usize>>) -> Seq<u8>
    decreases ranges.len(),
{
    if ranges.len() == 0 {
        Seq::empty()
    } else {
        hive.subrange(ranges[0].start as int, ranges[0].end as int) + bytes_of_ranges(
            hive,
            ranges.skip(1),
        )
    }
}

/// The segment at `index` holds 16344 bytes of the data, or what is left of the data
/// after the segments before it if that is less.
pub proof fn law_segment_lengths(hive: Seq<u8>, list_position: int, bytes_left: int, index: int)
    requires
        0 <= index < segments_from(hive, list_position, bytes_left).0.len(),
    ensures
        ({
            let range = segments_from(hive, list_position, bytes_left).0[index];
            &&& range.end - range.start == segment_len(bytes_left - index * BIG_DATA_SEGMENT_SIZE)
            &&& range.start <= range.end <= hive.len()
            &&& 0 < range.end - range.start
        }),
    decreases index,
{
    reveal_with_fuel(segments_from, 2);
    let range = segment_at(hive, list_position, bytes_left)->Ok_0;
    let rest = segments_from(
        hive,
        list_position + BIG_DATA_LIST_ITEM_SIZE,
        bytes_left - segment_len(bytes_left),
    );
    assert(segments_from(hive, list_position, bytes_left).0 == seq![range] + rest.0);
    if index > 0 {
        assert(segments_from(hive, list_position, bytes_left).0[index] == rest.0[index - 1]);
        law_segment_lengths(
            hive,
            list_position + BIG_DATA_LIST_ITEM_SIZE,
            bytes_left - segment_len(bytes_left),
            index - 1,
        );
    }
}

/// Where every segment can be read, the segments hold as many bytes in all as the
/// data is declared to have.
pub proof fn law_segments_total(hive: Seq<u8>, list_position: int, bytes_left: int)
    requires
        0 <= bytes_left,
        segments_from(hive, list_position, bytes_left).1 is None,
    ensures
        bytes_of_ranges(hive, segments_from(hive, list_position, bytes_left).0).len()
            == bytes_left,
    decreases bytes_left,
{
    reveal_with_fuel(segments_from, 2);
    if bytes_left > 0 {
        let range = segment_at(hive, list_position, bytes_left)->Ok_0;
        let rest = segments_from(
            hive,
            list_position + BIG_DATA_LIST_ITEM_SIZE,
            bytes_left - segment_len(bytes_left),
        );
        let all = segments_from(hive, list_position, bytes_left).0;
        assert(all == seq![range] + rest.0);
        assert(all.skip(1) =~= rest.0);
        law_segments_total(
            hive,
            list_position + BIG_DATA_LIST_ITEM_SIZE,
            bytes_left - segment_len(bytes_left),
        );
        law_segment_lengths(hive, list_position, bytes_left, 0);
    }
}

/// What the header of a Big Data structure in the cell `cell` says, for data of
/// `data_size` bytes: where its list of segments begins, or what is wrong with it.
///
/// * The cell is too small for the header.
/// * The header does not begin with `db`.
/// * The segments cannot hold `data_size` bytes; `data_size_field_offset` is
///   reported as the position of the field at fault.
/// * The cell of the segment list does not resolve, or is too small for the list.
pub open spec fn big_data_list_at(
    hive: Seq<u8>,
    data_size: u32,
    data_size_field_offset: usize,
    cell: Range<usize>,
) -> Result<int, NtHiveError> {
    if cell.end - cell.start < BIG_DATA_HEADER_SIZE {
        Err(
            NtHiveError::InvalidHeaderSize {
                offset: cell.start,
                expected: BIG_DATA_HEADER_SIZE,
                actual: (cell.end - cell.start) as usize,
            },
        )
    } else if two_bytes_at(hive, cell.start as int) != BIG_DATA_SIGNATURE {
        Err(
            NtHiveError::InvalidTwoByteSignature {
                offset: cell.start,
                expected: BIG_DATA_SIGNATURE,
                actual: two_bytes_at(hive, cell.start as int),
            },
        )
    } else {
        let segment_count = le_u16(hive.subrange(cell.start + 2, cell.start + 4));
        let segment_list_offset = le_u32(hive.subrange(cell.start + 4, cell.start + 8));
        if data_size > segment_count * BIG_DATA_SEGMENT_SIZE {
            Err(
                NtHiveError::InvalidSizeField {
                    offset: data_size_field_offset,
                    expected: (segment_count * BIG_DATA_SEGMENT_SIZE) as usize,
                    actual: data_size as usize,
                },
            )
        } else {
            match cell_at(hive, segment_list_offset) {
                Err(e) => Err(e),
                Ok(list_cell) => if list_cell.end - list_cell.start < segment_count
                    * BIG_DATA_LIST_ITEM_SIZE {
                    Err(
                        NtHiveError::InvalidSizeField {
                            offset: (cell.start + 2) as usize,
                            expected: (segment_count * BIG_DATA_LIST_ITEM_SIZE) as usize,
                            actual: (list_cell.end - list_cell.start) as usize,
                        },
                    )
                } else {
                    Ok(list_cell.start as int)
                },
            }
        }
    }
}

/// Iterator over the segments of Big Data: each call of [`next`](BigDataSlices::next)
/// hands out the bytes of one segment, read in place.
///
/// On-Disk Signature: `db`
#[derive(Clone, Copy, Debug)]
pub struct BigDataSlices<'h> {
    hive: Hive<'h>,
    list_start: usize,
    list_end: usize,
    bytes_left: usize,
}

impl<'h> BigDataSlices<'h> {
    #[verifier::type_invariant]
    spec fn well_formed(&self) -> bool {
        &&& self.list_start <= self.list_end <= self.hive@.len()
        &&& self.bytes_left <= ((self.list_end - self.list_start) / (
        BIG_DATA_LIST_ITEM_SIZE as int)) * BIG_DATA_SEGMENT_SIZE
    }

    /// The bytes of the hive that the segments are read from.
    pub closed spec fn hive(&self) -> Seq<u8> {
        self.hive@
    }

    /// Where the data offset of the next segment is stored.
    pub closed spec fn list_position(&self) -> nat {
        self.list_start as nat
    }

    /// How many bytes of data are still to come.
    pub closed spec fn bytes_left(&self) -> nat {
        self.bytes_left as nat
    }

    /// All that is still to come: see [`segments_from`].
    pub open spec fn segments(&self) -> (Seq<Range<usize>>, Option<NtHiveError>) {
        segments_from(self.hive(), self.list_position() as int, self.bytes_left() as int)
    }

    /// Reads the Big Data header in the cell `header_cell_range` and returns an
    /// iterator over the segments of data of `data_size` bytes in all.
    pub fn new(
        hive: Hive<'h>,
        data_size: u32,
        data_size_field_offset: usize,
        header_cell_range: Range<usize>,
    ) -> (slices: Result<Self, NtHiveError>)
        requires
            header_cell_range.start <= header_cell_range.end <= hive@.len(),
        ensures
            match big_data_list_at(hive@, data_size, data_size_field_offset, header_cell_range) {
                Ok(list_position) => slices is Ok && slices->Ok_0.hive() == hive@
                    && slices->Ok_0.list_position() == list_position
                    && slices->Ok_0.bytes_left() == data_size,
                Err(e) => slices == Err::<Self, NtHiveError>(e),
            },
    {
        // Get the Big Data header.
        let header_range = match byte_subrange(&header_cell_range, BIG_DATA_HEADER_SIZE) {
            Some(header_range) => header_range,
            None => {
                return Err(
                    NtHiveError::InvalidHeaderSize {
                        offset: header_cell_range.start,
                        expected: BIG_DATA_HEADER_SIZE,
                        actual: header_cell_range.end - header_cell_range.start,
                    },
                );
            },
        };
        let signature = hive.signature_at(header_range.start);
        if signature[0] != BIG_DATA_SIGNATURE[0] || signature[1] != BIG_DATA_SIGNATURE[1] {
            return Err(
                NtHiveError::InvalidTwoByteSignature {
                    offset: header_range.start,
                    expected: BIG_DATA_SIGNATURE,
                    actual: signature,
                },
            );
        }
        assert(signature =~= BIG_DATA_SIGNATURE);

        // Check the segment count: the segments must be able to hold the entire data.
        let segment_count = hive.u16_at(header_range.start + 2) as usize;
        let max_data_size = segment_count * BIG_DATA_SEGMENT_SIZE;
        if data_size as usize > max_data_size {
            return Err(
                NtHiveError::InvalidSizeField {
                    offset: data_size_field_offset,
                    expected: max_data_size,
                    actual: data_size as usize,
                },
            );
        }
        // Get the list of segments.

        let segment_list_offset = hive.u32_at(header_range.start + 4);
        let segment_list_cell_range = match hive.cell_range_from_data_offset(segment_list_offset) {
            Ok(range) => range,
            Err(e) => { return Err(e); },
        };
        let list_size = segment_count * BIG_DATA_LIST_ITEM_SIZE;
        let big_data_list_range = match byte_subrange(&segment_list_cell_range, list_size) {
            Some(range) => range,
            None => {
                return Err(
                    NtHiveError::InvalidSizeField {
                        offset: header_range.start + 2,
                        expected: list_size,
                        actual: segment_list_cell_range.end - segment_list_cell_range.start,
                    },
                );
            },
        };

        Ok(
            BigDataSlices {
                hive,
                list_start: big_data_list_range.start,
                list_end: big_data_list_range.end,
                bytes_left: data_size as usize,
            },
        )
    }

    /// Hands out the bytes of the next segment.
    ///
    /// A segment that cannot be read is reported once, and nothing comes after it.
    pub fn next(&mut self) -> (item: Option<Result<&'h [u8], NtHiveError>>)
        ensures
            final(self).hive() == old(self).hive(),
            old(self).bytes_left() == 0 ==> item is None && *final(self) == *old(self),
            old(self).bytes_left() > 0 ==> match segment_at(
                old(self).hive(),
                old(self).list_position() as int,
                old(self).bytes_left() as int,
            ) {
                Ok(range) => {
                    &&& item matches Some(Ok(slice))
                    &&& slice@ == old(self).hive().subrange(range.start as int, range.end as int)
                    &&& final(self).list_position() == old(self).list_position()
                        + BIG_DATA_LIST_ITEM_SIZE
                    &&& final(self).bytes_left() == old(self).bytes_left() - segment_len(
                        old(self).bytes_left() as int,
                    )
                },
                Err(e) => item == Some(Err::<&'h [u8], NtHiveError>(e)) && final(self).bytes_left()
                    == 0,
            },
            match item {
                None => {
                    &&& old(self).segments() == (Seq::<Range<usize>>::empty(), None::<NtHiveError>)
                    &&& *final(self) == *old(self)
                },
                Some(Ok(slice)) => {
                    &&& old(self).segments().0.len() > 0
                    &&& slice@ == old(self).hive().subrange(
                        old(self).segments().0[0].start as int,
                        old(self).segments().0[0].end as int,
                    )
                    &&& final(self).segments().0 == old(self).segments().0.skip(1)
                    &&& final(self).segments().1 == old(self).segments().1
                    &&& final(self).bytes_left() < old(self).bytes_left()
                },
                Some(Err(e)) => {
                    &&& old(self).segments() == (Seq::<Range<usize>>::empty(), Some(e))
                    &&& final(self).segments() == (
                        Seq::<Range<usize>>::empty(),
                        None::<NtHiveError>,
                    )
                },
            },
    {
        proof {
            use_type_invariant(&*self);
            reveal_with_fuel(segments_from, 2);
        }
        let ghost before = *self;
        // Every segment contains BIG_DATA_SEGMENT_SIZE bytes of data except for the last one.
        let bytes_to_return = if self.bytes_left < BIG_DATA_SEGMENT_SIZE {
            self.bytes_left
        } else {
            BIG_DATA_SEGMENT_SIZE
        };
        if bytes_to_return == 0 {
            None
        } else {
            // Get the next segment offset.
            let segment_offset = self.hive.u32_at(self.list_start);

            // Get the cell belonging to that offset and check its size.
            match self.hive.cell_range_from_data_offset(segment_offset) {
                Err(e) => {
                    self.bytes_left = 0;
                    Some(Err(e))
                },
                Ok(cell_range) => {
                    let cell_len = cell_range.end - cell_range.start;
                    if cell_len < bytes_to_return {
                        self.bytes_left = 0;
                        Some(
                            Err(
                                NtHiveError::InvalidDataSize {
                                    offset: cell_range.start,
                                    expected: bytes_to_return,
                                    actual: cell_len,
                                },
                            ),
                        )
                    } else {
                        // Return a byte slice containing the data of this segment.
                        self.bytes_left -= bytes_to_return;
                        self.list_start += BIG_DATA_LIST_ITEM_SIZE;
                        let data_range = cell_range.start..cell_range.start + bytes_to_return;
                        assert(before.segments().0 == seq![data_range] + self.segments().0);
                        assert(self.segments().0 =~= before.segments().0.skip(1));
                        Some(Ok(self.hive.bytes(&data_range)))
                    }
                },
            }
        }
    }
}

} // verus!
