//! Key Nodes: the keys of the registry, each with a name, subkeys and values.
use crate::bytes::{byte_subrange, le_u16, le_u32};
use crate::error::NtHiveError;
use crate::hive::{cell_at, two_bytes_at, Hive};
use crate::index_root::{
    as_items, leaf_in_cell, root_items, IndexRootIter, InnerIterators, INDEX_ROOT_ITEM_SIZE,
    INDEX_ROOT_SIGNATURE,
};
use crate::key_value::{reads_key_value, KeyValue};
use crate::leaf::{item_offsets, subkey_list_items, ListItems};
use crate::lookup::{
    is_scanned_value, names_are_ascending, names_ascending, scan_for_value, scan_values,
};
use crate::root_lookup::{
    found_in_root, leaf_kind, leaves_are_sorted, none_in_root, open_leaf, search_index_root,
    search_leaf, searched_leaf, sorted_root, LeafKind,
};
use crate::units::{encode_utf16, str_units};
use crate::string::NtHiveNameString;
use core::ops::Range;
use vstd::prelude::*;

verus! {

/// This bit in the flags indicates that the name is in Latin1 instead of UTF-16LE.
pub const KEY_COMP_NAME: u16 = 0x0020;

/// The size of a Key Node header: all fields before the name.
///
/// | at | bytes | field |
/// |---:|------:|-------|
/// | 0  | 2 | signature `nk` |
/// | 2  | 2 | flags |
/// | 4  | 8 | timestamp |
/// | 12 | 4 | spare |
/// | 16 | 4 | data offset of the parent |
/// | 20 | 4 | number of subkeys |
/// | 24 | 4 | number of volatile subkeys |
/// | 28 | 4 | data offset of the subkey list |
/// | 32 | 4 | data offset of the list of volatile subkeys |
/// | 36 | 4 | number of values |
/// | 40 | 4 | data offset of the list of values |
/// | 44 | 4 | data offset of the security descriptor |
/// | 48 | 4 | data offset of the class name |
/// | 52 | 16 | largest sizes of subkey names, subkey class names, value names, value data |
/// | 68 | 2 | length of the name in bytes |
/// | 70 | 2 | length of the class name in bytes |
pub const KEY_NODE_HEADER_SIZE: usize = 72;

/// The signature of a Key Node header: `nk`.
pub const KEY_NODE_SIGNATURE: [u8; 2] = [0x6e, 0x6b];

/// Where the flags are in a Key Node header.
pub const FLAGS_FIELD: usize = 2;

/// Where the number of subkeys is in a Key Node header.
pub const SUBKEY_COUNT_FIELD: usize = 20;

/// Where the data offset of the subkey list is in a Key Node header.
pub const SUBKEYS_LIST_OFFSET_FIELD: usize = 28;

/// Where the number of values is in a Key Node header.
pub const KEY_VALUES_COUNT_FIELD: usize = 36;

/// Where the data offset of the list of values is in a Key Node header.
pub const KEY_VALUES_LIST_OFFSET_FIELD: usize = 40;

/// Where the length of the name is in a Key Node header.
pub const KEY_NAME_LENGTH_FIELD: usize = 68;

/// The 32-bit field of a header at `header` that begins `field` bytes into it.
pub open spec fn u32_field_at(hive: Seq<u8>, header: int, field: int) -> u32 {
    le_u32(hive.subrange(header + field, header + field + 4))
}

/// The 16-bit field of a header at `header` that begins `field` bytes into it.
pub open spec fn u16_field_at(hive: Seq<u8>, header: int, field: int) -> u16 {
    le_u16(hive.subrange(header + field, header + field + 2))
}

/// What a cell holds that should hold a Key Node: the position of its header,
/// or `InvalidHeaderSize` for a cell that is too small for one,
/// or `InvalidTwoByteSignature` for one that does not begin with `nk`.
pub open spec fn key_node_in_cell(hive: Seq<u8>, cell: Range<usize>) -> Result<usize, NtHiveError> {
    if cell.end - cell.start < KEY_NODE_HEADER_SIZE {
        Err(
            NtHiveError::InvalidHeaderSize {
                offset: cell.start,
                expected: KEY_NODE_HEADER_SIZE,
                actual: (cell.end - cell.start) as usize,
            },
        )
    } else if two_bytes_at(hive, cell.start as int) != KEY_NODE_SIGNATURE {
        Err(
            NtHiveError::InvalidTwoByteSignature {
                offset: cell.start,
                expected: KEY_NODE_SIGNATURE,
                actual: two_bytes_at(hive, cell.start as int),
            },
        )
    } else {
        Ok(cell.start)
    }
}

/// The Key Node that a data offset refers to, as the range of its cell,
/// or what is wrong with the cell or with the header in it.
pub open spec fn key_node_at(hive: Seq<u8>, data_offset: u32) -> Result<Range<usize>, NtHiveError> {
    match cell_at(hive, data_offset) {
        Err(e) => Err(e),
        Ok(cell) => match key_node_in_cell(hive, cell) {
            Err(e) => Err(e),
            Ok(_) => Ok(cell),
        },
    }
}

/// The range of the name of the Key Node whose header is at `header` and whose cell
/// ends at `cell_end`: the bytes right after the header, as many as the header declares;
/// or `InvalidSizeField` if the cell does not hold that many.
pub open spec fn key_name_range(hive: Seq<u8>, header: int, cell_end: int) -> Result<
    Range<usize>,
    NtHiveError,
> {
    let name_start = header + KEY_NODE_HEADER_SIZE;
    let name_length = u16_field_at(hive, header, KEY_NAME_LENGTH_FIELD as int);
    if name_length <= cell_end - name_start {
        Ok(Range { start: name_start as usize, end: (name_start + name_length) as usize })
    } else {
        Err(
            NtHiveError::InvalidSizeField {
                offset: (header + KEY_NAME_LENGTH_FIELD) as usize,
                expected: name_length as usize,
                actual: (cell_end - name_start) as usize,
            },
        )
    }
}

/// Whether the flags of the Key Node header at `header` say that the name is in Latin1.
pub open spec fn key_name_is_latin1(hive: Seq<u8>, header: int) -> bool {
    (u16_field_at(hive, header, FLAGS_FIELD as int) / 0x20) % 2 == 1
}

/// The name of the Key Node whose header is at `header`, as code units.
pub open spec fn key_name_units(hive: Seq<u8>, header: int, cell_end: int) -> Result<
    Seq<u16>,
    NtHiveError,
> {
    match key_name_range(hive, header, cell_end) {
        Err(e) => Err(e),
        Ok(range) => Ok(
            if key_name_is_latin1(hive, header) {
                crate::units::latin1_units(hive.subrange(range.start as int, range.end as int))
            } else {
                crate::units::utf16le_units(hive.subrange(range.start as int, range.end as int))
            },
        ),
    }
}

/// The name of the Key Node that a data offset refers to, as code units,
/// or what is wrong with the Key Node or with its name.
#[verifier::opaque]
pub open spec fn subkey_name(hive: Seq<u8>, data_offset: u32) -> Result<Seq<u16>, NtHiveError> {
    match key_node_at(hive, data_offset) {
        Err(e) => Err(e),
        Ok(cell) => key_name_units(hive, cell.start as int, cell.end as int),
    }
}

/// Whether `result` is what reading the Key Node at `data_offset` gives:
/// the Key Node in the cell that the data offset refers to, or what is wrong with it.
pub open spec fn reads_key_node(
    result: Result<KeyNode<'_>, NtHiveError>,
    hive: Seq<u8>,
    data_offset: u32,
) -> bool {
    match key_node_at(hive, data_offset) {
        Ok(cell) => result is Ok && result->Ok_0.hive() == hive && result->Ok_0.header()
            == cell.start && result->Ok_0.cell_end() == cell.end,
        Err(e) => result is Err && result->Err_0 == e,
    }
}

/// The size of an item of a list of values: the data offset of a Key Value.
pub const KEY_VALUES_LIST_ITEM_SIZE: usize = 4;

/// What the subkey list in the cell `cell` holds, whether it is an Index Root or a leaf:
/// for each Key Node its data offset, and for each leaf of an Index Root that cannot be
/// read its fault; or what is wrong with the list itself.
pub open spec fn subkey_list_in_cell(hive: Seq<u8>, cell: Range<usize>) -> Result<
    Seq<Result<u32, NtHiveError>>,
    NtHiveError,
> {
    if two_bytes_at(hive, cell.start as int) == INDEX_ROOT_SIGNATURE {
        match subkey_list_items(hive, cell, INDEX_ROOT_SIGNATURE, INDEX_ROOT_ITEM_SIZE) {
            Err(e) => Err(e),
            Ok(range) => Ok(
                root_items(
                    hive,
                    item_offsets(
                        hive,
                        range.start as int,
                        range.end as int,
                        INDEX_ROOT_ITEM_SIZE as int,
                    ),
                ),
            ),
        }
    } else {
        match leaf_in_cell(hive, cell) {
            Err(e) => Err(e),
            Ok(offsets) => Ok(as_items(offsets)),
        }
    }
}

/// A subkey list as a search for a name sees it.
pub enum SubkeyListShape {
    /// A leaf of the given kind, with the data offsets of its Key Nodes.
    Leaf(LeafKind, Seq<u32>),
    /// An Index Root, with the data offsets of its leaves.
    Root(Seq<u32>),
}

/// The subkey list in the cell `cell` as a search for a name sees it,
/// or what is wrong with the list.
pub open spec fn subkey_list_shape(hive: Seq<u8>, cell: Range<usize>) -> Result<
    SubkeyListShape,
    NtHiveError,
> {
    if two_bytes_at(hive, cell.start as int) == INDEX_ROOT_SIGNATURE {
        match subkey_list_items(hive, cell, INDEX_ROOT_SIGNATURE, INDEX_ROOT_ITEM_SIZE) {
            Err(e) => Err(e),
            Ok(range) => Ok(
                SubkeyListShape::Root(
                    item_offsets(
                        hive,
                        range.start as int,
                        range.end as int,
                        INDEX_ROOT_ITEM_SIZE as int,
                    ),
                ),
            ),
        }
    } else {
        match leaf_in_cell(hive, cell) {
            Err(e) => Err(e),
            Ok(offsets) => Ok(
                SubkeyListShape::Leaf(leaf_kind(two_bytes_at(hive, cell.start as int)), offsets),
            ),
        }
    }
}

/// The subkey list of the Key Node whose header is at `header` as a search for a name
/// sees it: `None` if the header declares no subkey, else the list or what is wrong with it.
pub open spec fn subkey_list_of(hive: Seq<u8>, header: int) -> Option<
    Result<SubkeyListShape, NtHiveError>,
> {
    if u32_field_at(hive, header, SUBKEY_COUNT_FIELD as int) == 0 {
        None
    } else {
        Some(
            match cell_at(hive, u32_field_at(hive, header, SUBKEYS_LIST_OFFSET_FIELD as int)) {
                Err(e) => Err(e),
                Ok(cell) => subkey_list_shape(hive, cell),
            },
        )
    }
}

/// The subkeys of the Key Node whose header is at `header`: `None` if the header
/// declares no subkey, else what its subkey list holds or what is wrong with the list.
pub open spec fn subkeys_at(hive: Seq<u8>, header: int) -> Option<
    Result<Seq<Result<u32, NtHiveError>>, NtHiveError>,
> {
    if u32_field_at(hive, header, SUBKEY_COUNT_FIELD as int) == 0 {
        None
    } else {
        Some(
            match cell_at(hive, u32_field_at(hive, header, SUBKEYS_LIST_OFFSET_FIELD as int)) {
                Err(e) => Err(e),
                Ok(cell) => subkey_list_in_cell(hive, cell),
            },
        )
    }
}

/// The values of the Key Node whose header is at `header`: `None` if the header
/// declares no value, else the data offsets of its Key Values, or what is wrong with
/// the list of values: its cell does not resolve, or is too small for as many data offsets
/// as the header declares (`InvalidSizeField`).
pub open spec fn key_values_at(hive: Seq<u8>, header: int) -> Option<
    Result<Seq<u32>, NtHiveError>,
> {
    let count = u32_field_at(hive, header, KEY_VALUES_COUNT_FIELD as int);
    if count == 0 {
        None
    } else {
        Some(
            match cell_at(hive, u32_field_at(hive, header, KEY_VALUES_LIST_OFFSET_FIELD as int)) {
                Err(e) => Err(e),
                Ok(cell) => if count * KEY_VALUES_LIST_ITEM_SIZE > cell.end - cell.start {
                    Err(
                        NtHiveError::InvalidSizeField {
                            offset: (header + KEY_VALUES_COUNT_FIELD) as usize,
                            expected: if count * KEY_VALUES_LIST_ITEM_SIZE <= usize::MAX {
                                (count * KEY_VALUES_LIST_ITEM_SIZE) as usize
                            } else {
                                usize::MAX
                            },
                            actual: (cell.end - cell.start) as usize,
                        },
                    )
                } else {
                    Ok(
                        item_offsets(
                            hive,
                            cell.start as int,
                            cell.start + count * KEY_VALUES_LIST_ITEM_SIZE,
                            KEY_VALUES_LIST_ITEM_SIZE as int,
                        ),
                    )
                },
            },
        )
    }
}

/// Iterator over the subkeys of a Key Node, whatever kind of subkey list it has.
#[derive(Clone, Copy, Debug)]
pub enum SubKeyNodes<'h> {
    IndexRoot(IndexRootIter<'h>),
    Leaf(InnerIterators<'h>),
}

impl<'h> SubKeyNodes<'h> {
    /// The bytes of the hive that the Key Nodes are read from.
    pub open spec fn hive(&self) -> Seq<u8> {
        match self {
            SubKeyNodes::IndexRoot(iter) => iter.hive(),
            SubKeyNodes::Leaf(iter) => iter.hive(),
        }
    }

    /// What the iterator has still to hand out: for each Key Node its data offset,
    /// and for each leaf of an Index Root that cannot be read its fault.
    pub open spec fn pending(&self) -> Seq<Result<u32, NtHiveError>> {
        match self {
            SubKeyNodes::IndexRoot(iter) => iter.pending(),
            SubKeyNodes::Leaf(iter) => as_items(iter.pending()),
        }
    }

    /// Opens the subkey list in the cell `cell_range`.
    pub fn from_cell_range(hive: Hive<'h>, cell_range: Range<usize>) -> (iter: Result<
        Self,
        NtHiveError,
    >)
        requires
            cell_range.start + 2 <= cell_range.end <= hive@.len(),
        ensures
            match subkey_list_in_cell(hive@, cell_range) {
                Ok(items) => iter is Ok && iter->Ok_0.hive() == hive@ && iter->Ok_0.pending()
                    == items,
                Err(e) => iter is Err && iter->Err_0 == e,
            },
    {
        let signature = hive.signature_at(cell_range.start);
        if signature[0] == 0x72 && signature[1] == 0x69 {
            assert(signature =~= INDEX_ROOT_SIGNATURE);
            match IndexRootIter::from_cell_range(hive, cell_range) {
                Ok(iter) => Ok(SubKeyNodes::IndexRoot(iter)),
                Err(e) => Err(e),
            }
        } else {
            match InnerIterators::from_cell_range(hive, cell_range) {
                Ok(iter) => Ok(SubKeyNodes::Leaf(iter)),
                Err(e) => Err(e),
            }
        }
    }

    /// Hands out the next subkey.
    ///
    /// A Key Node that cannot be read is handed out as an error, and so is a leaf of an
    /// Index Root that cannot be read; what comes after them still follows.
    pub fn next(&mut self) -> (item: Option<Result<KeyNode<'h>, NtHiveError>>)
        ensures
            final(self).hive() == old(self).hive(),
            old(self).pending().len() == 0 ==> item is None && final(self).pending()
                == old(self).pending(),
            old(self).pending().len() > 0 ==> final(self).pending() == old(self).pending().skip(1)
                && match old(self).pending()[0] {
                Ok(data_offset) => item is Some && reads_key_node(
                    item->0,
                    old(self).hive(),
                    data_offset,
                ),
                Err(e) => item matches Some(Err(actual)) && actual == e,
            },
    {
        match self {
            SubKeyNodes::IndexRoot(iter) => iter.next(),
            SubKeyNodes::Leaf(iter) => {
                let ghost before = iter.pending();
                let item = iter.next();
                assert(as_items(iter.pending()) =~= as_items(before).skip(1) || before.len() == 0);
                item
            },
        }
    }
}

/// Iterator over the values of a Key Node.
#[derive(Clone, Copy, Debug)]
pub struct KeyValues<'h> {
    items: ListItems<'h>,
}

impl<'h> KeyValues<'h> {
    /// The bytes of the hive that the Key Values are read from.
    pub closed spec fn hive(&self) -> Seq<u8> {
        self.items.hive()
    }

    /// The data offsets of the Key Values that have not been handed out yet.
    pub closed spec fn pending(&self) -> Seq<u32> {
        self.items.pending()
    }

    /// Hands out the next Key Value. One that cannot be read is handed out as an error,
    /// and the Key Values after it still follow.
    pub fn next(&mut self) -> (item: Option<Result<KeyValue<'h>, NtHiveError>>)
        ensures
            final(self).hive() == old(self).hive(),
            old(self).pending().len() == 0 ==> item is None && final(self).pending()
                == old(self).pending(),
            old(self).pending().len() > 0 ==> item is Some && reads_key_value(
                item->0,
                old(self).hive(),
                old(self).pending()[0],
            ) && final(self).pending() == old(self).pending().skip(1),
    {
        let ghost hive = self.items.hive();
        match self.items.next_offset() {
            None => None,
            Some(data_offset) => {
                let hive = self.items.hive_data();
                Some(KeyValue::from_data_offset(hive, data_offset))
            },
        }
    }
}

/// Where the header of the hive file stores the data offset of the root Key Node.
pub const ROOT_CELL_OFFSET_FIELD: usize = 36;

/// The root Key Node of a hive, as the range of its cell: the Key Node that the
/// data offset in the file header refers to.
pub open spec fn root_key_node_at(hive: Seq<u8>) -> Result<Range<usize>, NtHiveError> {
    key_node_at(hive, u32_field_at(hive, 0, ROOT_CELL_OFFSET_FIELD as int))
}

impl<'h> Hive<'h> {
    /// Returns the root Key Node of this hive.
    pub fn root_key_node(&self) -> (key_node: Result<KeyNode<'h>, NtHiveError>)
        ensures
            match root_key_node_at(self@) {
                Ok(cell) => key_node is Ok && key_node->Ok_0.hive() == self@
                    && key_node->Ok_0.header() == cell.start && key_node->Ok_0.cell_end()
                    == cell.end,
                Err(e) => key_node is Err && key_node->Err_0 == e,
            },
    {
        let _ = self.data();
        let root_cell_offset = self.u32_at(ROOT_CELL_OFFSET_FIELD);
        KeyNode::from_data_offset(*self, root_cell_offset)
    }
}

/// A single key that belongs to a [`Hive`].
/// It has a name and possibly subkeys and values.
///
/// On-Disk Signature: `nk`
#[derive(Clone, Copy, Debug)]
pub struct KeyNode<'h> {
    hive: Hive<'h>,
    header_start: usize,
    cell_end: usize,
}

impl<'h> KeyNode<'h> {
    #[verifier::type_invariant]
    spec fn well_formed(&self) -> bool {
        &&& self.header_start + KEY_NODE_HEADER_SIZE <= self.cell_end <= self.hive@.len()
        &&& two_bytes_at(self.hive@, self.header_start as int) == KEY_NODE_SIGNATURE
    }

    /// The bytes of the hive that this Key Node is read from.
    pub closed spec fn hive(&self) -> Seq<u8> {
        self.hive@
    }

    /// The position of the header of this Key Node in the hive.
    pub closed spec fn header(&self) -> int {
        self.header_start as int
    }

    /// The position right after the cell of this Key Node.
    pub closed spec fn cell_end(&self) -> int {
        self.cell_end as int
    }

    /// Reads the Key Node in the cell `cell_range`.
    pub fn new(hive: Hive<'h>, cell_range: Range<usize>) -> (key_node: Result<Self, NtHiveError>)
        requires
            cell_range.start <= cell_range.end <= hive@.len(),
        ensures
            match key_node_in_cell(hive@, cell_range) {
                Ok(header) => key_node is Ok && key_node->Ok_0.hive() == hive@
                    && key_node->Ok_0.header() == cell_range.start && key_node->Ok_0.cell_end()
                    == cell_range.end,
                Err(e) => key_node == Err::<Self, NtHiveError>(e),
            },
    {
        let header_range = match byte_subrange(&cell_range, KEY_NODE_HEADER_SIZE) {
            Some(header_range) => header_range,
            None => {
                return Err(
                    NtHiveError::InvalidHeaderSize {
                        offset: cell_range.start,
                        expected: KEY_NODE_HEADER_SIZE,
                        actual: cell_range.end - cell_range.start,
                    },
                );
            },
        };
        let signature = hive.signature_at(header_range.start);
        if signature[0] == KEY_NODE_SIGNATURE[0] && signature[1] == KEY_NODE_SIGNATURE[1] {
            assert(signature =~= KEY_NODE_SIGNATURE);
            Ok(KeyNode { hive, header_start: header_range.start, cell_end: cell_range.end })
        } else {
            Err(
                NtHiveError::InvalidTwoByteSignature {
                    offset: header_range.start,
                    expected: KEY_NODE_SIGNATURE,
                    actual: signature,
                },
            )
        }
    }

    /// Reads the Key Node that a data offset refers to.
    pub fn from_data_offset(hive: Hive<'h>, data_offset: u32) -> (key_node: Result<
        Self,
        NtHiveError,
    >)
        ensures
            reads_key_node(key_node, hive@, data_offset),
    {
        match hive.cell_range_from_data_offset(data_offset) {
            Ok(cell_range) => Self::new(hive, cell_range),
            Err(e) => Err(e),
        }
    }

    /// Returns the hive that this Key Node is read from.
    pub fn hive_data(&self) -> (hive: Hive<'h>)
        ensures
            hive@ == self.hive(),
    {
        self.hive
    }

    /// Returns the position of the header of this Key Node in the hive.
    pub fn offset(&self) -> (offset: usize)
        ensures
            offset == self.header(),
    {
        self.header_start
    }

    /// Returns the name of this Key Node.
    pub fn name(&self) -> (name: Result<NtHiveNameString<'h>, NtHiveError>)
        ensures
            match key_name_range(self.hive(), self.header(), self.cell_end()) {
                Ok(range) => {
                    &&& name matches Ok(string)
                    &&& string.bytes() == self.hive().subrange(range.start as int, range.end as int)
                    &&& string is Latin1 == key_name_is_latin1(self.hive(), self.header())
                    &&& key_name_units(self.hive(), self.header(), self.cell_end()) == Ok::<
                        Seq<u16>,
                        NtHiveError,
                    >(string.units())
                },
                Err(e) => {
                    &&& name matches Err(actual)
                    &&& actual == e
                    &&& key_name_units(self.hive(), self.header(), self.cell_end()) == Err::<
                        Seq<u16>,
                        NtHiveError,
                    >(e)
                },
            },
    {
        proof {
            use_type_invariant(self);
        }
        let flags = self.hive.u16_at(self.header_start + FLAGS_FIELD);
        let name_length = self.hive.u16_at(self.header_start + KEY_NAME_LENGTH_FIELD) as usize;
        let data_range = self.header_start + KEY_NODE_HEADER_SIZE..self.cell_end;

        let name_range = match byte_subrange(&data_range, name_length) {
            Some(name_range) => name_range,
            None => {
                return Err(
                    NtHiveError::InvalidSizeField {
                        offset: self.header_start + KEY_NAME_LENGTH_FIELD,
                        expected: name_length,
                        actual: data_range.end - data_range.start,
                    },
                );
            },
        };
        let name_bytes = self.hive.bytes(&name_range);

        assert((flags & 0x0020u16 != 0) == ((flags / 0x20) % 2 == 1)) by (bit_vector);
        if flags & KEY_COMP_NAME != 0 {
            Ok(NtHiveNameString::Latin1(name_bytes))
        } else {
            Ok(NtHiveNameString::Utf16LE(name_bytes))
        }
    }

    /// Returns an iterator over the subkeys of this Key Node,
    /// or `None` if the header declares none.
    pub fn subkeys(&self) -> (subkeys: Option<Result<SubKeyNodes<'h>, NtHiveError>>)
        ensures
            match subkeys_at(self.hive(), self.header()) {
                None => subkeys is None,
                Some(Ok(items)) => subkeys matches Some(Ok(iter)) && iter.hive() == self.hive()
                    && iter.pending() == items,
                Some(Err(e)) => subkeys matches Some(Err(actual)) && actual == e,
            },
    {
        proof {
            use_type_invariant(self);
        }
        if self.subkey_count() == 0 {
            // A Key Node without subkeys has no subkey list.
            return None;
        }
        let list_offset = self.hive.u32_at(self.header_start + SUBKEYS_LIST_OFFSET_FIELD);
        match self.hive.cell_range_from_data_offset(list_offset) {
            Err(e) => Some(Err(e)),
            Ok(cell_range) => Some(SubKeyNodes::from_cell_range(self.hive, cell_range)),
        }
    }

    /// Finds the subkey with the given name, case-insensitively.
    ///
    /// `None` says that no subkey was found; `Some(Err(..))` that the search
    /// came upon something that cannot be read.
    ///
    /// Whatever the hive holds, a Key Node that is returned is a subkey of this one and has
    /// that name. Where the names of the subkeys are in strictly ascending order, as the
    /// format demands, the subkey with that name is found if there is one.
    /// See [`searched_leaf`] and [`found_in_root`] for all that is known of the outcome.
    pub fn subkey(&self, name: &str) -> (found: Option<Result<KeyNode<'h>, NtHiveError>>)
        ensures
            match subkey_list_of(self.hive(), self.header()) {
                None => found is None,
                Some(Err(e)) => found matches Some(Err(actual)) && actual == e,
                Some(Ok(SubkeyListShape::Leaf(kind, offsets))) => searched_leaf(
                    found,
                    kind,
                    self.hive(),
                    offsets,
                    encode_utf16(name@),
                ),
                Some(Ok(SubkeyListShape::Root(leaves))) => {
                    &&& found_in_root(found, self.hive(), leaves, encode_utf16(name@))
                    &&& sorted_root(self.hive(), leaves) ==> !(found is Some && found->0 is Err)
                        && (found is None <==> none_in_root(
                        self.hive(),
                        leaves,
                        encode_utf16(name@),
                    ))
                },
            },
    {
        proof {
            use_type_invariant(self);
        }
        if self.subkey_count() == 0 {
            // A Key Node without subkeys has no subkey list.
            return None;
        }
        let list_offset = self.hive.u32_at(self.header_start + SUBKEYS_LIST_OFFSET_FIELD);
        let cell_range = match self.hive.cell_range_from_data_offset(list_offset) {
            Err(e) => { return Some(Err(e)); },
            Ok(cell_range) => cell_range,
        };
        let name_units = str_units(name);
        let signature = self.hive.signature_at(cell_range.start);
        if signature[0] == 0x72 && signature[1] == 0x69 {
            assert(signature =~= INDEX_ROOT_SIGNATURE);
            match ListItems::new(
                self.hive,
                cell_range,
                INDEX_ROOT_SIGNATURE,
                INDEX_ROOT_ITEM_SIZE,
            ) {
                Err(e) => Some(Err(e)),
                Ok(elements) => search_index_root(elements, name_units.as_slice()),
            }
        } else {
            match open_leaf(self.hive, cell_range) {
                Err(e) => Some(Err(e)),
                Ok((kind, items)) => search_leaf(kind, items, name_units.as_slice()),
            }
        }
    }

    /// Decides whether the names of the subkeys are in strictly ascending case-insensitive
    /// order, as the format demands: `None` if the header declares no subkey, else
    /// the answer, or what is wrong with the subkey list.
    ///
    /// Where the answer is `true`, [`subkey`](KeyNode::subkey) finds every subkey.
    pub fn subkeys_are_sorted(&self) -> (sorted: Option<Result<bool, NtHiveError>>)
        ensures
            match subkey_list_of(self.hive(), self.header()) {
                None => sorted is None,
                Some(Err(e)) => sorted matches Some(Err(actual)) && actual == e,
                Some(Ok(SubkeyListShape::Leaf(_, offsets))) => sorted == Some(
                    Ok::<bool, NtHiveError>(names_ascending(self.hive(), offsets)),
                ),
                Some(Ok(SubkeyListShape::Root(leaves))) => sorted == Some(
                    Ok::<bool, NtHiveError>(sorted_root(self.hive(), leaves)),
                ),
            },
    {
        proof {
            use_type_invariant(self);
        }
        if self.subkey_count() == 0 {
            return None;
        }
        let list_offset = self.hive.u32_at(self.header_start + SUBKEYS_LIST_OFFSET_FIELD);
        let cell_range = match self.hive.cell_range_from_data_offset(list_offset) {
            Err(e) => { return Some(Err(e)); },
            Ok(cell_range) => cell_range,
        };
        let signature = self.hive.signature_at(cell_range.start);
        if signature[0] == 0x72 && signature[1] == 0x69 {
            assert(signature =~= INDEX_ROOT_SIGNATURE);
            match ListItems::new(
                self.hive,
                cell_range,
                INDEX_ROOT_SIGNATURE,
                INDEX_ROOT_ITEM_SIZE,
            ) {
                Err(e) => Some(Err(e)),
                Ok(elements) => Some(Ok(leaves_are_sorted(elements))),
            }
        } else {
            match open_leaf(self.hive, cell_range) {
                Err(e) => Some(Err(e)),
                Ok((_, items)) => Some(Ok(names_are_ascending(items))),
            }
        }
    }

    /// Finds the value with the given name, case-insensitively.
    ///
    /// The values are compared one after the other, from the first: `None` says that
    /// none has the name, `Some(Err(..))` that one that cannot be read came first.
    pub fn value(&self, name: &str) -> (found: Option<Result<KeyValue<'h>, NtHiveError>>)
        ensures
            match key_values_at(self.hive(), self.header()) {
                None => found is None,
                Some(Err(e)) => found matches Some(Err(actual)) && actual == e,
                Some(Ok(offsets)) => is_scanned_value(
                    found,
                    self.hive(),
                    scan_values(self.hive(), offsets, encode_utf16(name@)),
                ),
            },
    {
        match self.values() {
            None => None,
            Some(Err(e)) => Some(Err(e)),
            Some(Ok(values)) => {
                let name_units = str_units(name);
                scan_for_value(values.items, name_units.as_slice())
            },
        }
    }

    /// Returns an iterator over the values of this Key Node,
    /// or `None` if the header declares none.
    pub fn values(&self) -> (values: Option<Result<KeyValues<'h>, NtHiveError>>)
        ensures
            match key_values_at(self.hive(), self.header()) {
                None => values is None,
                Some(Ok(offsets)) => values matches Some(Ok(iter)) && iter.hive() == self.hive()
                    && iter.pending() == offsets,
                Some(Err(e)) => values matches Some(Err(actual)) && actual == e,
            },
    {
        proof {
            use_type_invariant(self);
        }
        let count = self.key_values_count();
        if count == 0 {
            // A Key Node without values has no list of values.
            return None;
        }
        let list_offset = self.hive.u32_at(self.header_start + KEY_VALUES_LIST_OFFSET_FIELD);
        let cell_range = match self.hive.cell_range_from_data_offset(list_offset) {
            Err(e) => { return Some(Err(e)); },
            Ok(cell_range) => cell_range,
        };
        let list_size: u64 = count as u64 * KEY_VALUES_LIST_ITEM_SIZE as u64;
        let cell_size = cell_range.end - cell_range.start;
        if list_size > cell_size as u64 {
            return Some(
                Err(
                    NtHiveError::InvalidSizeField {
                        offset: self.header_start + KEY_VALUES_COUNT_FIELD,
                        expected: if list_size <= usize::MAX as u64 {
                            list_size as usize
                        } else {
                            usize::MAX
                        },
                        actual: cell_size,
                    },
                ),
            );
        }
        let items = ListItems::from_range(
            self.hive,
            cell_range.start,
            cell_range.start + list_size as usize,
            KEY_VALUES_LIST_ITEM_SIZE,
        );
        Some(Ok(KeyValues { items }))
    }

    /// Returns the number of subkeys that the header declares.
    pub fn subkey_count(&self) -> (count: u32)
        ensures
            count == u32_field_at(self.hive(), self.header(), SUBKEY_COUNT_FIELD as int),
    {
        proof {
            use_type_invariant(self);
        }
        self.hive.u32_at(self.header_start + SUBKEY_COUNT_FIELD)
    }

    /// Returns the number of values that the header declares.
    pub fn key_values_count(&self) -> (count: u32)
        ensures
            count == u32_field_at(self.hive(), self.header(), KEY_VALUES_COUNT_FIELD as int),
    {
        proof {
            use_type_invariant(self);
        }
        self.hive.u32_at(self.header_start + KEY_VALUES_COUNT_FIELD)
    }
}

} // verus!
