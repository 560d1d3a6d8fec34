//! Subkey lists: the Index Leaf, the Fast Leaf and the Hash Leaf, each a list of
//! data offsets of Key Nodes.
use crate::bytes::{byte_subrange, le_u16, le_u32};
use crate::error::NtHiveError;
use crate::hive::{cell_at, two_bytes_at, Hive};
use crate::key_node::{reads_key_node, KeyNode};
use core::ops::Range;
use vstd::prelude::*;

verus! {

/// The size of the header of a subkey list: signature and count.
pub const SUBKEY_LIST_HEADER_SIZE: usize = 4;

/// The signature of an Index Leaf: `li`.
pub const INDEX_LEAF_SIGNATURE: [u8; 2] = [0x6c, 0x69];

/// The signature of a Fast Leaf: `lf`.
pub const FAST_LEAF_SIGNATURE: [u8; 2] = [0x6c, 0x66];

/// The signature of a Hash Leaf: `lh`.
pub const HASH_LEAF_SIGNATURE: [u8; 2] = [0x6c, 0x68];

/// The size of an item of an Index Leaf: the data offset of a Key Node.
pub const INDEX_LEAF_ITEM_SIZE: usize = 4;

/// The size of an item of a Fast Leaf: the data offset of a Key Node,
/// and the first four characters of its name as a hint.
pub const FAST_LEAF_ITEM_SIZE: usize = 8;

/// The size of an item of a Hash Leaf: the data offset of a Key Node, and the hash of its name.
pub const HASH_LEAF_ITEM_SIZE: usize = 8;

/// The range of the items of the subkey list in the cell `cell`, which should begin with
/// `signature` and have items of `item_size` bytes; or what is wrong with it:
///
/// * `InvalidHeaderSize`: the cell is too small for signature and count;
/// * `InvalidTwoByteSignature`: the cell begins with something else;
/// * `InvalidSizeField`: the cell is too small for as many items as the count declares.
pub open spec fn subkey_list_items(
    hive: Seq<u8>,
    cell: Range<usize>,
    signature: [u8; 2],
    item_size: usize,
) -> Result<Range<usize>, NtHiveError> {
    if cell.end - cell.start < SUBKEY_LIST_HEADER_SIZE {
        Err(
            NtHiveError::InvalidHeaderSize {
                offset: cell.start,
                expected: SUBKEY_LIST_HEADER_SIZE,
                actual: (cell.end - cell.start) as usize,
            },
        )
    } else if two_bytes_at(hive, cell.start as int) != signature {
        Err(
            NtHiveError::InvalidTwoByteSignature {
                offset: cell.start,
                expected: signature,
                actual: two_bytes_at(hive, cell.start as int),
            },
        )
    } else {
        let count = le_u16(hive.subrange(cell.start + 2, cell.start + 4));
        if count * item_size > cell.end - cell.start - SUBKEY_LIST_HEADER_SIZE {
            Err(
                NtHiveError::InvalidSizeField {
                    offset: (cell.start + 2) as usize,
                    expected: (count * item_size) as usize,
                    actual: (cell.end - cell.start - SUBKEY_LIST_HEADER_SIZE) as usize,
                },
            )
        } else {
            Ok(
                Range {
                    start: (cell.start + SUBKEY_LIST_HEADER_SIZE) as usize,
                    end: (cell.start + SUBKEY_LIST_HEADER_SIZE + count * item_size) as usize,
                },
            )
        }
    }
}

/// The range of the items of the subkey list that a data offset refers to,
/// or what is wrong with its cell or with the list in it.
pub open spec fn subkey_list_at(
    hive: Seq<u8>,
    data_offset: u32,
    signature: [u8; 2],
    item_size: usize,
) -> Result<Range<usize>, NtHiveError> {
    match cell_at(hive, data_offset) {
        Err(e) => Err(e),
        Ok(cell) => subkey_list_items(hive, cell, signature, item_size),
    }
}

/// The data offsets that the items from `start` up to `end` begin with,
/// one for every `item_size` bytes.
pub open spec fn item_offsets(hive: Seq<u8>, start: int, end: int, item_size: int) -> Seq<u32>
    decreases end - start,
{
    if item_size <= 0 || start + item_size > end {
        Seq::empty()
    } else {
        seq![le_u32(hive.subrange(start, start + 4))] + item_offsets(
            hive,
            start + item_size,
            end,
            item_size,
        )
    }
}

/// The four bytes that follow the data offset in each item of eight bytes from `start`
/// up to `end`: the name hint of a Fast Leaf, the name hash of a Hash Leaf.
pub open spec fn item_hints(hive: Seq<u8>, start: int, end: int) -> Seq<u32>
    decreases end - start,
{
    if start + 8 > end {
        Seq::empty()
    } else {
        seq![le_u32(hive.subrange(start + 4, start + 8))] + item_hints(hive, start + 8, end)
    }
}

/// How many items of four or eight bytes there are from `start` up to `end`,
/// and where the data offset of each is read.
pub proof fn lemma_item_offsets(hive: Seq<u8>, start: int, end: int, item_size: int, index: int)
    requires
        item_size == 4 || item_size == 8,
        start <= end,
        0 <= index,
        start + (index + 1) * item_size <= end,
    ensures
        item_offsets(hive, start, end, item_size).len() == (end - start) / item_size,
        item_offsets(hive, start, end, item_size)[index] == le_u32(
            hive.subrange(start + index * item_size, start + index * item_size + 4),
        ),
    decreases end - start,
{
    lemma_item_offsets_len(hive, start, end, item_size);
    if index > 0 {
        lemma_item_offsets(hive, start + item_size, end, item_size, index - 1);
    }
}

/// How many items of four or eight bytes there are from `start` up to `end`.
pub proof fn lemma_item_offsets_len(hive: Seq<u8>, start: int, end: int, item_size: int)
    requires
        item_size == 4 || item_size == 8,
        start <= end,
    ensures
        item_offsets(hive, start, end, item_size).len() == (end - start) / item_size,
    decreases end - start,
{
    if start + item_size <= end {
        lemma_item_offsets_len(hive, start + item_size, end, item_size);
    }
}

/// How many items of eight bytes there are from `start` up to `end`,
/// and where the hint of each is read.
pub proof fn lemma_item_hints(hive: Seq<u8>, start: int, end: int, index: int)
    requires
        start <= end,
        0 <= index,
        start + (index + 1) * 8 <= end,
    ensures
        item_hints(hive, start, end).len() == (end - start) / 8,
        item_hints(hive, start, end)[index] == le_u32(
            hive.subrange(start + index * 8 + 4, start + index * 8 + 8),
        ),
    decreases end - start,
{
    lemma_item_hints_len(hive, start, end);
    if index > 0 {
        lemma_item_hints(hive, start + 8, end, index - 1);
    }
}

/// How many items of eight bytes there are from `start` up to `end`.
pub proof fn lemma_item_hints_len(hive: Seq<u8>, start: int, end: int)
    requires
        start <= end,
    ensures
        item_hints(hive, start, end).len() == (end - start) / 8,
    decreases end - start,
{
    if start + 8 <= end {
        lemma_item_hints_len(hive, start + 8, end);
    }
}

/// A cursor over the items of a list of data offsets: a subkey list, the elements of an
/// Index Root, or the list of values of a Key Node.
#[derive(Clone, Copy, Debug)]
pub struct ListItems<'h> {
    hive: Hive<'h>,
    position: usize,
    end: usize,
    item_size: usize,
}

impl<'h> ListItems<'h> {
    #[verifier::type_invariant]
    spec fn well_formed(&self) -> bool {
        &&& self.position <= self.end <= self.hive@.len()
        &&& (self.item_size == 4 || self.item_size == 8)
    }

    /// The bytes of the hive that the items are read from.
    pub closed spec fn hive(&self) -> Seq<u8> {
        self.hive@
    }

    /// The data offsets of the items that have not been handed out yet.
    pub closed spec fn pending(&self) -> Seq<u32> {
        item_offsets(self.hive@, self.position as int, self.end as int, self.item_size as int)
    }

    /// The data offset of the item at `index`, counted from the next one.
    pub open spec fn entry(&self, index: usize) -> u32 {
        self.pending()[index as int]
    }

    /// Whether each item has four more bytes after its data offset.
    pub closed spec fn has_hints(&self) -> bool {
        self.item_size == 8
    }

    /// The four bytes after the data offset of each item that has not been handed out yet.
    pub closed spec fn pending_hints(&self) -> Seq<u32> {
        item_hints(self.hive@, self.position as int, self.end as int)
    }

    /// Returns the number of items that have not been handed out yet.
    pub fn count(&self) -> (count: usize)
        ensures
            count == self.pending().len(),
            self.has_hints() ==> count == self.pending_hints().len(),
    {
        proof {
            use_type_invariant(self);
            lemma_item_offsets_len(
                self.hive@,
                self.position as int,
                self.end as int,
                self.item_size as int,
            );
            lemma_item_hints_len(self.hive@, self.position as int, self.end as int);
        }
        if self.item_size == 4 {
            (self.end - self.position) / 4
        } else {
            (self.end - self.position) / 8
        }
    }

    /// Returns the data offset of the item at `index`, counted from the next one.
    pub fn offset_at(&self, index: usize) -> (data_offset: u32)
        requires
            index < self.pending().len(),
        ensures
            data_offset == self.pending()[index as int],
    {
        proof {
            use_type_invariant(self);
            lemma_item_offsets_len(
                self.hive@,
                self.position as int,
                self.end as int,
                self.item_size as int,
            );
            lemma_item_offsets(
                self.hive@,
                self.position as int,
                self.end as int,
                self.item_size as int,
                index as int,
            );
        }
        if self.item_size == 4 {
            self.hive.u32_at(self.position + index * 4)
        } else {
            self.hive.u32_at(self.position + index * 8)
        }
    }

    /// Returns the four bytes after the data offset of the item at `index`,
    /// counted from the next one.
    pub fn hint_at(&self, index: usize) -> (hint: u32)
        requires
            self.has_hints(),
            index < self.pending_hints().len(),
        ensures
            hint == self.pending_hints()[index as int],
    {
        proof {
            use_type_invariant(self);
            lemma_item_hints_len(self.hive@, self.position as int, self.end as int);
            lemma_item_hints(self.hive@, self.position as int, self.end as int, index as int);
        }
        self.hive.u32_at(self.position + index * 8 + 4)
    }

    /// Reads the header of the subkey list in the cell `cell_range`.
    pub fn new(
        hive: Hive<'h>,
        cell_range: Range<usize>,
        signature: [u8; 2],
        item_size: usize,
    ) -> (items: Result<Self, NtHiveError>)
        requires
            cell_range.start <= cell_range.end <= hive@.len(),
            item_size == 4 || item_size == 8,
        ensures
            match subkey_list_items(hive@, cell_range, signature, item_size) {
                Ok(range) => items is Ok && items->Ok_0.hive() == hive@ && items->Ok_0.pending()
                    == item_offsets(hive@, range.start as int, range.end as int, item_size as int)
                    && items->Ok_0.has_hints() == (item_size == 8) && items->Ok_0.pending_hints()
                    == item_hints(hive@, range.start as int, range.end as int),
                Err(e) => items == Err::<Self, NtHiveError>(e),
            },
    {
        let header_range = match byte_subrange(&cell_range, SUBKEY_LIST_HEADER_SIZE) {
            Some(header_range) => header_range,
            None => {
                return Err(
                    NtHiveError::InvalidHeaderSize {
                        offset: cell_range.start,
                        expected: SUBKEY_LIST_HEADER_SIZE,
                        actual: cell_range.end - cell_range.start,
                    },
                );
            },
        };
        let actual = hive.signature_at(header_range.start);
        if actual[0] != signature[0] || actual[1] != signature[1] {
            return Err(
                NtHiveError::InvalidTwoByteSignature {
                    offset: header_range.start,
                    expected: signature,
                    actual,
                },
            );
        }
        assert(actual =~= signature);

        // Read the number of items and check it against the size of the cell.
        let count = hive.u16_at(header_range.start + 2) as usize;
        assert(count * item_size <= 0xFFFF * 8) by (nonlinear_arith)
            requires
                count <= 0xFFFF,
                item_size <= 8,
        ;
        let items_size = count * item_size;
        let data_range = header_range.end..cell_range.end;
        match byte_subrange(&data_range, items_size) {
            Some(items_range) => Ok(
                ListItems {
                    hive,
                    position: items_range.start,
                    end: items_range.end,
                    item_size,
                },
            ),
            None => Err(
                NtHiveError::InvalidSizeField {
                    offset: header_range.start + 2,
                    expected: items_size,
                    actual: data_range.end - data_range.start,
                },
            ),
        }
    }

    /// A cursor over the items of `item_size` bytes from `start` up to `end`.
    pub fn from_range(hive: Hive<'h>, start: usize, end: usize, item_size: usize) -> (items: Self)
        requires
            start <= end <= hive@.len(),
            item_size == 4 || item_size == 8,
        ensures
            items.hive() == hive@,
            items.pending() == item_offsets(hive@, start as int, end as int, item_size as int),
            items.has_hints() == (item_size == 8),
    {
        ListItems { hive, position: start, end, item_size }
    }

    /// Returns the hive that the items are read from.
    pub fn hive_data(&self) -> (hive: Hive<'h>)
        ensures
            hive@ == self.hive(),
    {
        self.hive
    }

    /// Hands out the data offset that the next item begins with.
    pub fn next_offset(&mut self) -> (data_offset: Option<u32>)
        ensures
            final(self).hive() == old(self).hive(),
            final(self).has_hints() == old(self).has_hints(),
            old(self).pending().len() == 0 ==> data_offset is None && final(self).pending()
                == old(self).pending(),
            old(self).pending().len() > 0 ==> data_offset == Some(old(self).pending()[0])
                && final(self).pending() == old(self).pending().skip(1),
    {
        proof {
            use_type_invariant(&*self);
        }
        if self.end - self.position < self.item_size {
            None
        } else {
            let ghost before = self.pending();
            let data_offset = self.hive.u32_at(self.position);
            self.position += self.item_size;
            assert(self.pending() =~= before.skip(1));
            Some(data_offset)
        }
    }

    /// Hands out the Key Node of the next item, or what is wrong with it.
    pub fn next_key_node(&mut self) -> (item: Option<Result<KeyNode<'h>, NtHiveError>>)
        ensures
            final(self).hive() == old(self).hive(),
            final(self).has_hints() == old(self).has_hints(),
            old(self).pending().len() == 0 ==> item is None && final(self).pending()
                == old(self).pending(),
            old(self).pending().len() > 0 ==> item is Some && reads_key_node(
                item->0,
                old(self).hive(),
                old(self).pending()[0],
            ) && final(self).pending() == old(self).pending().skip(1),
    {
        let hive = self.hive;
        match self.next_offset() {
            None => None,
            Some(data_offset) => Some(KeyNode::from_data_offset(hive, data_offset)),
        }
    }
}

/// Iterator over the Key Nodes of an Index Leaf.
///
/// On-Disk Signature: `li`
#[derive(Clone, Copy, Debug)]
pub struct IndexLeafIter<'h> {
    items: ListItems<'h>,
}

impl<'h> IndexLeafIter<'h> {
    /// The bytes of the hive that the Key Nodes are read from.
    pub closed spec fn hive(&self) -> Seq<u8> {
        self.items.hive()
    }

    /// The data offsets of the Key Nodes that have not been handed out yet.
    pub closed spec fn pending(&self) -> Seq<u32> {
        self.items.pending()
    }

    /// Reads the header of the Index Leaf that `offset` refers to, in the hive of `key`.
    pub fn new(key: &KeyNode<'h>, offset: u32) -> (iter: Result<Self, NtHiveError>)
        ensures
            match subkey_list_at(key.hive(), offset, INDEX_LEAF_SIGNATURE, INDEX_LEAF_ITEM_SIZE) {
                Ok(range) => iter is Ok && iter->Ok_0.hive() == key.hive() && iter->Ok_0.pending()
                    == item_offsets(
                    key.hive(),
                    range.start as int,
                    range.end as int,
                    INDEX_LEAF_ITEM_SIZE as int,
                ),
                Err(e) => iter is Err && iter->Err_0 == e,
            },
    {
        let hive = key.hive_data();
        match hive.cell_range_from_data_offset(offset) {
            Err(e) => Err(e),
            Ok(cell_range) => Self::from_cell_range(hive, cell_range),
        }
    }

    /// Reads the header of the Index Leaf in the cell `cell_range`.
    pub fn from_cell_range(hive: Hive<'h>, cell_range: Range<usize>) -> (iter: Result<
        Self,
        NtHiveError,
    >)
        requires
            cell_range.start <= cell_range.end <= hive@.len(),
        ensures
            match subkey_list_items(hive@, cell_range, INDEX_LEAF_SIGNATURE, INDEX_LEAF_ITEM_SIZE) {
                Ok(range) => iter is Ok && iter->Ok_0.hive() == hive@ && iter->Ok_0.pending()
                    == item_offsets(
                    hive@,
                    range.start as int,
                    range.end as int,
                    INDEX_LEAF_ITEM_SIZE as int,
                ),
                Err(e) => iter is Err && iter->Err_0 == e,
            },
    {
        match ListItems::new(hive, cell_range, INDEX_LEAF_SIGNATURE, INDEX_LEAF_ITEM_SIZE) {
            Ok(items) => Ok(IndexLeafIter { items }),
            Err(e) => Err(e),
        }
    }

    /// Hands out the next Key Node. One that cannot be read is handed out as an error,
    /// and the Key Nodes after it still follow.
    pub fn next(&mut self) -> (item: Option<Result<KeyNode<'h>, NtHiveError>>)
        ensures
            final(self).hive() == old(self).hive(),
            old(self).pending().len() == 0 ==> item is None && final(self).pending()
                == old(self).pending(),
            old(self).pending().len() > 0 ==> item is Some && reads_key_node(
                item->0,
                old(self).hive(),
                old(self).pending()[0],
            ) && final(self).pending() == old(self).pending().skip(1),
    {
        self.items.next_key_node()
    }
}

/// Iterator over the Key Nodes of a Fast Leaf.
///
/// On-Disk Signature: `lf`
#[derive(Clone, Copy, Debug)]
pub struct FastLeafIter<'h> {
    items: ListItems<'h>,
}

impl<'h> FastLeafIter<'h> {
    /// The bytes of the hive that the Key Nodes are read from.
    pub closed spec fn hive(&self) -> Seq<u8> {
        self.items.hive()
    }

    /// The data offsets of the Key Nodes that have not been handed out yet.
    pub closed spec fn pending(&self) -> Seq<u32> {
        self.items.pending()
    }

    /// Reads the header of the Fast Leaf that `offset` refers to, in the hive of `key`.
    pub fn new(key: &KeyNode<'h>, offset: u32) -> (iter: Result<Self, NtHiveError>)
        ensures
            match subkey_list_at(key.hive(), offset, FAST_LEAF_SIGNATURE, FAST_LEAF_ITEM_SIZE) {
                Ok(range) => iter is Ok && iter->Ok_0.hive() == key.hive() && iter->Ok_0.pending()
                    == item_offsets(
                    key.hive(),
                    range.start as int,
                    range.end as int,
                    FAST_LEAF_ITEM_SIZE as int,
                ),
                Err(e) => iter is Err && iter->Err_0 == e,
            },
    {
        let hive = key.hive_data();
        match hive.cell_range_from_data_offset(offset) {
            Err(e) => Err(e),
            Ok(cell_range) => Self::from_cell_range(hive, cell_range),
        }
    }

    /// Reads the header of the Fast Leaf in the cell `cell_range`.
    pub fn from_cell_range(hive: Hive<'h>, cell_range: Range<usize>) -> (iter: Result<
        Self,
        NtHiveError,
    >)
        requires
            cell_range.start <= cell_range.end <= hive@.len(),
        ensures
            match subkey_list_items(hive@, cell_range, FAST_LEAF_SIGNATURE, FAST_LEAF_ITEM_SIZE) {
                Ok(range) => iter is Ok && iter->Ok_0.hive() == hive@ && iter->Ok_0.pending()
                    == item_offsets(
                    hive@,
                    range.start as int,
                    range.end as int,
                    FAST_LEAF_ITEM_SIZE as int,
                ),
                Err(e) => iter is Err && iter->Err_0 == e,
            },
    {
        match ListItems::new(hive, cell_range, FAST_LEAF_SIGNATURE, FAST_LEAF_ITEM_SIZE) {
            Ok(items) => Ok(FastLeafIter { items }),
            Err(e) => Err(e),
        }
    }

    /// Hands out the next Key Node. One that cannot be read is handed out as an error,
    /// and the Key Nodes after it still follow.
    pub fn next(&mut self) -> (item: Option<Result<KeyNode<'h>, NtHiveError>>)
        ensures
            final(self).hive() == old(self).hive(),
            old(self).pending().len() == 0 ==> item is None && final(self).pending()
                == old(self).pending(),
            old(self).pending().len() > 0 ==> item is Some && reads_key_node(
                item->0,
                old(self).hive(),
                old(self).pending()[0],
            ) && final(self).pending() == old(self).pending().skip(1),
    {
        self.items.next_key_node()
    }
}

/// Iterator over the Key Nodes of a Hash Leaf.
///
/// On-Disk Signature: `lh`
#[derive(Clone, Copy, Debug)]
pub struct HashLeafIter<'h> {
    items: ListItems<'h>,
}

impl<'h> HashLeafIter<'h> {
    /// The bytes of the hive that the Key Nodes are read from.
    pub closed spec fn hive(&self) -> Seq<u8> {
        self.items.hive()
    }

    /// The data offsets of the Key Nodes that have not been handed out yet.
    pub closed spec fn pending(&self) -> Seq<u32> {
        self.items.pending()
    }

    /// Reads the header of the Hash Leaf that `offset` refers to, in the hive of `key`.
    pub fn new(key: &KeyNode<'h>, offset: u32) -> (iter: Result<Self, NtHiveError>)
        ensures
            match subkey_list_at(key.hive(), offset, HASH_LEAF_SIGNATURE, HASH_LEAF_ITEM_SIZE) {
                Ok(range) => iter is Ok && iter->Ok_0.hive() == key.hive() && iter->Ok_0.pending()
                    == item_offsets(
                    key.hive(),
                    range.start as int,
                    range.end as int,
                    HASH_LEAF_ITEM_SIZE as int,
                ),
                Err(e) => iter is Err && iter->Err_0 == e,
            },
    {
        let hive = key.hive_data();
        match hive.cell_range_from_data_offset(offset) {
            Err(e) => Err(e),
            Ok(cell_range) => Self::from_cell_range(hive, cell_range),
        }
    }

    /// Reads the header of the Hash Leaf in the cell `cell_range`.
    pub fn from_cell_range(hive: Hive<'h>, cell_range: Range<usize>) -> (iter: Result<
        Self,
        NtHiveError,
    >)
        requires
            cell_range.start <= cell_range.end <= hive@.len(),
        ensures
            match subkey_list_items(hive@, cell_range, HASH_LEAF_SIGNATURE, HASH_LEAF_ITEM_SIZE) {
                Ok(range) => iter is Ok && iter->Ok_0.hive() == hive@ && iter->Ok_0.pending()
                    == item_offsets(
                    hive@,
                    range.start as int,
                    range.end as int,
                    HASH_LEAF_ITEM_SIZE as int,
                ),
                Err(e) => iter is Err && iter->Err_0 == e,
            },
    {
        match ListItems::new(hive, cell_range, HASH_LEAF_SIGNATURE, HASH_LEAF_ITEM_SIZE) {
            Ok(items) => Ok(HashLeafIter { items }),
            Err(e) => Err(e),
        }
    }

    /// Hands out the next Key Node. One that cannot be read is handed out as an error,
    /// and the Key Nodes after it still follow.
    pub fn next(&mut self) -> (item: Option<Result<KeyNode<'h>, NtHiveError>>)
        ensures
            final(self).hive() == old(self).hive(),
            old(self).pending().len() == 0 ==> item is None && final(self).pending()
                == old(self).pending(),
            old(self).pending().len() > 0 ==> item is Some && reads_key_node(
                item->0,
                old(self).hive(),
                old(self).pending()[0],
            ) && final(self).pending() == old(self).pending().skip(1),
    {
        self.items.next_key_node()
    }
}

} // verus!
