//! Index Roots: lists of subkey list leaves, for keys with many subkeys.
use crate::error::NtHiveError;
use crate::hive::{cell_at, two_bytes_at, Hive};
use crate::key_node::{reads_key_node, KeyNode};
use crate::leaf::{
    item_offsets, subkey_list_at, subkey_list_items, FastLeafIter, HashLeafIter, IndexLeafIter,
    ListItems, FAST_LEAF_ITEM_SIZE, FAST_LEAF_SIGNATURE, HASH_LEAF_ITEM_SIZE,
    HASH_LEAF_SIGNATURE, INDEX_LEAF_ITEM_SIZE, INDEX_LEAF_SIGNATURE,
};
use core::ops::Range;
use vstd::prelude::*;

verus! {

/// The signature of an Index Root: `ri`.
pub const INDEX_ROOT_SIGNATURE: [u8; 2] = [0x72, 0x69];

/// The size of an element of an Index Root: the data offset of a subkey list leaf.
pub const INDEX_ROOT_ITEM_SIZE: usize = 4;

/// The signatures of what an element of an Index Root may refer to.
pub const LEAF_SIGNATURES: [[u8; 2]; 3] = [
    INDEX_LEAF_SIGNATURE,
    FAST_LEAF_SIGNATURE,
    HASH_LEAF_SIGNATURE,
];

/// The data offsets of the Key Nodes of the leaf in the cell `cell`, whatever kind of
/// leaf it is; or what is wrong with the leaf. `InvalidSubkeyListSignature` is for a cell
/// that begins with the signature of none of the three kinds of leaves.
pub open spec fn leaf_in_cell(hive: Seq<u8>, cell: Range<usize>) -> Result<Seq<u32>, NtHiveError> {
    let signature = two_bytes_at(hive, cell.start as int);
    if signature == INDEX_LEAF_SIGNATURE {
        match subkey_list_items(hive, cell, INDEX_LEAF_SIGNATURE, INDEX_LEAF_ITEM_SIZE) {
            Err(e) => Err(e),
            Ok(range) => Ok(
                item_offsets(
                    hive,
                    range.start as int,
                    range.end as int,
                    INDEX_LEAF_ITEM_SIZE as int,
                ),
            ),
        }
    } else if signature == FAST_LEAF_SIGNATURE {
        match subkey_list_items(hive, cell, FAST_LEAF_SIGNATURE, FAST_LEAF_ITEM_SIZE) {
            Err(e) => Err(e),
            Ok(range) => Ok(
                item_offsets(hive, range.start as int, range.end as int, FAST_LEAF_ITEM_SIZE as int),
            ),
        }
    } else if signature == HASH_LEAF_SIGNATURE {
        match subkey_list_items(hive, cell, HASH_LEAF_SIGNATURE, HASH_LEAF_ITEM_SIZE) {
            Err(e) => Err(e),
            Ok(range) => Ok(
                item_offsets(hive, range.start as int, range.end as int, HASH_LEAF_ITEM_SIZE as int),
            ),
        }
    } else {
        Err(
            NtHiveError::InvalidSubkeyListSignature {
                offset: cell.start,
                expected: LEAF_SIGNATURES,
                actual: signature,
            },
        )
    }
}

/// The data offsets of a leaf as items of the iteration, none of them a fault.
pub open spec fn as_items(offsets: Seq<u32>) -> Seq<Result<u32, NtHiveError>> {
    offsets.map_values(|offset: u32| Ok::<u32, NtHiveError>(offset))
}

/// The data offsets of the Key Nodes of the leaf that a data offset refers to,
/// or what is wrong with its cell or with the leaf in it.
#[verifier::opaque]
pub open spec fn leaf_at(hive: Seq<u8>, leaf_offset: u32) -> Result<Seq<u32>, NtHiveError> {
    match cell_at(hive, leaf_offset) {
        Err(e) => Err(e),
        Ok(cell) => leaf_in_cell(hive, cell),
    }
}

/// What one element of an Index Root contributes to the iteration: the data offsets of
/// the Key Nodes of the leaf that it refers to, or the one fault of a leaf that cannot be read.
pub open spec fn element_items(hive: Seq<u8>, leaf_offset: u32) -> Seq<Result<u32, NtHiveError>> {
    match leaf_at(hive, leaf_offset) {
        Err(e) => seq![Err(e)],
        Ok(offsets) => as_items(offsets),
    }
}

/// What the elements of an Index Root contribute to the iteration, one after the other.
pub open spec fn root_items(hive: Seq<u8>, elements: Seq<u32>) -> Seq<Result<u32, NtHiveError>>
    decreases elements.len(),
{
    if elements.len() == 0 {
        Seq::empty()
    } else {
        element_items(hive, elements[0]) + root_items(hive, elements.skip(1))
    }
}

/// The leaf that an Index Root iterator is in the middle of.
#[derive(Clone, Copy, Debug)]
pub enum InnerIterators<'h> {
    FastLeaf(FastLeafIter<'h>),
    HashLeaf(HashLeafIter<'h>),
    IndexLeaf(IndexLeafIter<'h>),
}

impl<'h> InnerIterators<'h> {
    /// The bytes of the hive that the Key Nodes are read from.
    pub open spec fn hive(&self) -> Seq<u8> {
        match self {
            InnerIterators::FastLeaf(iter) => iter.hive(),
            InnerIterators::HashLeaf(iter) => iter.hive(),
            InnerIterators::IndexLeaf(iter) => iter.hive(),
        }
    }

    /// The data offsets of the Key Nodes of the leaf that have not been handed out yet.
    pub open spec fn pending(&self) -> Seq<u32> {
        match self {
            InnerIterators::FastLeaf(iter) => iter.pending(),
            InnerIterators::HashLeaf(iter) => iter.pending(),
            InnerIterators::IndexLeaf(iter) => iter.pending(),
        }
    }

    /// Opens the leaf in the cell `cell_range` as the kind of leaf that its signature says.
    pub fn from_cell_range(hive: Hive<'h>, cell_range: Range<usize>) -> (inner: Result<
        Self,
        NtHiveError,
    >)
        requires
            cell_range.start + 2 <= cell_range.end <= hive@.len(),
        ensures
            match leaf_in_cell(hive@, cell_range) {
                Ok(offsets) => inner is Ok && inner->Ok_0.hive() == hive@ && inner->Ok_0.pending()
                    == offsets,
                Err(e) => inner is Err && inner->Err_0 == e,
            },
    {
        let signature = hive.signature_at(cell_range.start);
        if signature[0] == 0x6c && signature[1] == 0x69 {
            assert(signature =~= INDEX_LEAF_SIGNATURE);
            match IndexLeafIter::from_cell_range(hive, cell_range) {
                Ok(iter) => Ok(InnerIterators::IndexLeaf(iter)),
                Err(e) => Err(e),
            }
        } else if signature[0] == 0x6c && signature[1] == 0x66 {
            assert(signature =~= FAST_LEAF_SIGNATURE);
            match FastLeafIter::from_cell_range(hive, cell_range) {
                Ok(iter) => Ok(InnerIterators::FastLeaf(iter)),
                Err(e) => Err(e),
            }
        } else if signature[0] == 0x6c && signature[1] == 0x68 {
            assert(signature =~= HASH_LEAF_SIGNATURE);
            match HashLeafIter::from_cell_range(hive, cell_range) {
                Ok(iter) => Ok(InnerIterators::HashLeaf(iter)),
                Err(e) => Err(e),
            }
        } else {
            Err(
                NtHiveError::InvalidSubkeyListSignature {
                    offset: cell_range.start,
                    expected: LEAF_SIGNATURES,
                    actual: signature,
                },
            )
        }
    }

    /// Hands out the next Key Node of the leaf.
    pub fn next(&mut self) -> (item: Option<Result<KeyNode<'h>, NtHiveError>>)
        ensures
            final(self).hive() == old(self).hive(),
            old(self).pending().len() == 0 ==> item is None && final(self).pending()
                == old(self).pending(),
            old(self).pending().len() > 0 ==> item is Some && reads_key_node(
                item->0,
                old(self).hive(),
                old(self).pending()[0],
            ) && final(self).pending() == old(self).pending().skip(1),
    {
        match self {
            InnerIterators::FastLeaf(iter) => iter.next(),
            InnerIterators::HashLeaf(iter) => iter.next(),
            InnerIterators::IndexLeaf(iter) => iter.next(),
        }
    }
}

/// What an iterator has still to hand out that is in the middle of the leaf `inner_iter`
/// and has the elements `elements` to come.
pub open spec fn pending_items(
    hive: Seq<u8>,
    inner_iter: Option<InnerIterators<'_>>,
    elements: Seq<u32>,
) -> Seq<Result<u32, NtHiveError>> {
    (match inner_iter {
        Some(inner) => as_items(inner.pending()),
        None => Seq::empty(),
    }) + root_items(hive, elements)
}

/// Iterator over the Key Nodes of all leaves of an Index Root, one leaf after the other.
///
/// On-Disk Signature: `ri`
#[derive(Clone, Copy, Debug)]
pub struct IndexRootIter<'h> {
    hive: Hive<'h>,
    inner_iter: Option<InnerIterators<'h>>,
    elements: ListItems<'h>,
}

impl<'h> IndexRootIter<'h> {
    #[verifier::type_invariant]
    spec fn well_formed(&self) -> bool {
        &&& self.elements.hive() == self.hive@
        &&& self.inner_iter matches Some(inner) ==> inner.hive() == self.hive@
    }

    /// The bytes of the hive that the Key Nodes are read from.
    pub closed spec fn hive(&self) -> Seq<u8> {
        self.hive@
    }

    /// What the iterator has still to hand out: for each Key Node its data offset,
    /// and for each leaf that cannot be read its fault.
    pub closed spec fn pending(&self) -> Seq<Result<u32, NtHiveError>> {
        pending_items(self.hive@, self.inner_iter, self.elements.pending())
    }

    /// Reads the header of the Index Root that `offset` refers to, in the hive of `key`.
    pub fn new(key: &KeyNode<'h>, offset: u32) -> (iter: Result<Self, NtHiveError>)
        ensures
            match subkey_list_at(key.hive(), offset, INDEX_ROOT_SIGNATURE, INDEX_ROOT_ITEM_SIZE) {
                Ok(range) => iter is Ok && iter->Ok_0.hive() == key.hive() && iter->Ok_0.pending()
                    == root_items(
                    key.hive(),
                    item_offsets(
                        key.hive(),
                        range.start as int,
                        range.end as int,
                        INDEX_ROOT_ITEM_SIZE as int,
                    ),
                ),
                Err(e) => iter is Err && iter->Err_0 == e,
            },
    {
        let hive = key.hive_data();
        match hive.cell_range_from_data_offset(offset) {
            Err(e) => Err(e),
            Ok(cell_range) => Self::from_cell_range(hive, cell_range),
        }
    }

    /// Reads the header of the Index Root in the cell `cell_range`.
    pub fn from_cell_range(hive: Hive<'h>, cell_range: Range<usize>) -> (iter: Result<
        Self,
        NtHiveError,
    >)
        requires
            cell_range.start <= cell_range.end <= hive@.len(),
        ensures
            match subkey_list_items(hive@, cell_range, INDEX_ROOT_SIGNATURE, INDEX_ROOT_ITEM_SIZE) {
                Ok(range) => iter is Ok && iter->Ok_0.hive() == hive@ && iter->Ok_0.pending()
                    == root_items(
                    hive@,
                    item_offsets(
                        hive@,
                        range.start as int,
                        range.end as int,
                        INDEX_ROOT_ITEM_SIZE as int,
                    ),
                ),
                Err(e) => iter is Err && iter->Err_0 == e,
            },
    {
        match ListItems::new(hive, cell_range, INDEX_ROOT_SIGNATURE, INDEX_ROOT_ITEM_SIZE) {
            Err(e) => Err(e),
            Ok(elements) => {
                assert(Seq::<Result<u32, NtHiveError>>::empty() + root_items(
                    hive@,
                    elements.pending(),
                ) =~= root_items(hive@, elements.pending()));
                Ok(IndexRootIter { hive, inner_iter: None, elements })
            },
        }
    }

    /// Hands out the next Key Node.
    ///
    /// A Key Node that cannot be read is handed out as an error, and so is a leaf
    /// that cannot be read; what comes after them still follows.
    pub fn next(&mut self) -> (item: Option<Result<KeyNode<'h>, NtHiveError>>)
        ensures
            final(self).hive() == old(self).hive(),
            old(self).pending().len() == 0 ==> item is None && final(self).pending()
                == old(self).pending(),
            old(self).pending().len() > 0 ==> final(self).pending() == old(self).pending().skip(1)
                && match old(self).pending()[0] {
                Ok(data_offset) => item is Some && reads_key_node(
                    item->0,
                    old(self).hive(),
                    data_offset,
                ),
                Err(e) => item matches Some(Err(actual)) && actual == e,
            },
    {
        proof {
            use_type_invariant(&*self);
        }
        let hive = self.hive;
        let mut inner_iter = self.inner_iter;
        let mut elements = self.elements;
        let mut item: Option<Result<KeyNode<'h>, NtHiveError>> = None;
        let ghost pending = self.pending();
        loop
            invariant_except_break
                item is None,
                hive@ == old(self).hive(),
                elements.hive() == hive@,
                inner_iter matches Some(inner) ==> inner.hive() == hive@,
                pending == pending_items(hive@, inner_iter, elements.pending()),
            ensures
                hive@ == old(self).hive(),
                elements.hive() == hive@,
                inner_iter matches Some(inner) ==> inner.hive() == hive@,
                pending.len() == 0 ==> item is None && pending_items(
                    hive@,
                    inner_iter,
                    elements.pending(),
                ) == pending,
                pending.len() > 0 ==> pending_items(hive@, inner_iter, elements.pending())
                    == pending.skip(1) && match pending[0] {
                    Ok(data_offset) => item is Some && reads_key_node(item->0, hive@, data_offset),
                    Err(e) => item matches Some(Err(actual)) && actual == e,
                },
            decreases elements.pending().len(),
        {
            // Do we already have an inner iterator for a current leaf?
            if let Some(inner) = inner_iter {
                // Retrieve the next element from the inner iterator.
                let mut inner = inner;
                let ghost before = inner.pending();
                item = inner.next();
                inner_iter = Some(inner);
                if item.is_some() {
                    // We have a Key Node to return.
                    assert(as_items(before).skip(1) =~= as_items(inner.pending()));
                    assert(pending.skip(1) =~= pending_items(
                        hive@,
                        inner_iter,
                        elements.pending(),
                    ));
                    break ;
                }
                assert(as_items(before) =~= Seq::<Result<u32, NtHiveError>>::empty());
            }
            // No inner iterator or the last inner iterator has been fully iterated.
            // So get the next inner iterator.

            assert(pending =~= root_items(hive@, elements.pending()));
            let ghost all_elements = elements.pending();
            match elements.next_offset() {
                None => {
                    // All leaves have been iterated.
                    break ;
                },
                Some(leaf_offset) => {
                    let opened = match hive.cell_range_from_data_offset(leaf_offset) {
                        Err(e) => Err(e),
                        Ok(cell_range) => InnerIterators::from_cell_range(hive, cell_range),
                    };
                    match opened {
                        Ok(inner) => {
                            reveal(leaf_at);
                            inner_iter = Some(inner);
                        },
                        Err(e) => {
                            inner_iter = None;
                            item = Some(Err(e));
                            reveal(leaf_at);
                            assert(element_items(hive@, leaf_offset) == seq![
                                Err::<u32, NtHiveError>(e),
                            ]);
                            assert(pending.skip(1) =~= pending_items(
                                hive@,
                                inner_iter,
                                elements.pending(),
                            ));
                            break ;
                        },
                    }
                },
            }
        }
        self.inner_iter = inner_iter;
        self.elements = elements;
        item
    }
}

} // verus!
