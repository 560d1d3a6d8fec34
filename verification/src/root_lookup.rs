//! Finding a subkey by its name in the leaves of an Index Root.
use crate::error::NtHiveError;
use crate::hive::{two_bytes_at, Hive};
use crate::index_root::{leaf_at, leaf_in_cell};
use crate::key_node::{reads_key_node, subkey_name, KeyNode};
use crate::leaf::{
    ListItems, FAST_LEAF_ITEM_SIZE, FAST_LEAF_SIGNATURE, HASH_LEAF_ITEM_SIZE,
    HASH_LEAF_SIGNATURE, INDEX_LEAF_ITEM_SIZE, INDEX_LEAF_SIGNATURE,
};
use crate::lookup::{
    found_among, is_scanned_subkey, lemma_scan_subkeys, names_are_ascending, names_ascending,
    none_named, scan_for_subkey, scan_subkeys, search_hash_leaf, search_sorted_leaf,
    subkey_named,
};
use crate::name_order::{
    compare_units, law_compare_antisymmetric, law_compare_reflexive, law_compare_transitive,
};
use crate::string::NtHiveNameString;
use core::cmp::Ordering;
use core::ops::Range;
use vstd::prelude::*;

verus! {

/// The three kinds of subkey list leaves.
#[derive(Clone, Copy, Debug, PartialEq, Eq)]
pub enum LeafKind {
    /// `li`: data offsets only, in no particular order.
    IndexLeaf,
    /// `lf`: data offsets with name hints, in the order of the names.
    FastLeaf,
    /// `lh`: data offsets with name hashes.
    HashLeaf,
}

/// The kind of leaf that a signature stands for.
pub open spec fn leaf_kind(signature: [u8; 2]) -> LeafKind {
    if signature == INDEX_LEAF_SIGNATURE {
        LeafKind::IndexLeaf
    } else if signature == FAST_LEAF_SIGNATURE {
        LeafKind::FastLeaf
    } else {
        LeafKind::HashLeaf
    }
}

/// Opens the leaf in the cell `cell_range` as the kind of leaf that its signature says,
/// for access to its items by position.
pub fn open_leaf<'h>(hive: Hive<'h>, cell_range: Range<usize>) -> (leaf: Result<
    (LeafKind, ListItems<'h>),
    NtHiveError,
>)
    requires
        cell_range.start + 2 <= cell_range.end <= hive@.len(),
    ensures
        match leaf_in_cell(hive@, cell_range) {
            Ok(offsets) => leaf is Ok && leaf->Ok_0.1.hive() == hive@ && leaf->Ok_0.1.pending()
                == offsets && (leaf->Ok_0.0 is HashLeaf ==> leaf->Ok_0.1.has_hints())
                && leaf->Ok_0.0 == leaf_kind(two_bytes_at(hive@, cell_range.start as int)),
            Err(e) => leaf is Err && leaf->Err_0 == e,
        },
{
    let signature = hive.signature_at(cell_range.start);
    if signature[0] == 0x6c && signature[1] == 0x69 {
        assert(signature =~= INDEX_LEAF_SIGNATURE);
        match ListItems::new(hive, cell_range, INDEX_LEAF_SIGNATURE, INDEX_LEAF_ITEM_SIZE) {
            Ok(items) => Ok((LeafKind::IndexLeaf, items)),
            Err(e) => Err(e),
        }
    } else if signature[0] == 0x6c && signature[1] == 0x66 {
        assert(signature =~= FAST_LEAF_SIGNATURE);
        match ListItems::new(hive, cell_range, FAST_LEAF_SIGNATURE, FAST_LEAF_ITEM_SIZE) {
            Ok(items) => Ok((LeafKind::FastLeaf, items)),
            Err(e) => Err(e),
        }
    } else if signature[0] == 0x6c && signature[1] == 0x68 {
        assert(signature =~= HASH_LEAF_SIGNATURE);
        match ListItems::new(hive, cell_range, HASH_LEAF_SIGNATURE, HASH_LEAF_ITEM_SIZE) {
            Ok(items) => Ok((LeafKind::HashLeaf, items)),
            Err(e) => Err(e),
        }
    } else {
        Err(
            NtHiveError::InvalidSubkeyListSignature {
                offset: cell_range.start,
                expected: crate::index_root::LEAF_SIGNATURES,
                actual: signature,
            },
        )
    }
}

/// Whether `found` is what a search of a leaf of the given kind for `name` may return.
///
/// * Whatever the hive holds, a Key Node that was found is one of the Key Nodes at
///   `offsets` and has the name, and a fault is that of one of them.
/// * Where the names are in strictly ascending order, the Key Node with the name is found
///   if there is one, and no fault is met.
/// * In an Index Leaf, the outcome is that of a scan from the first item to the last.
/// * In a Hash Leaf, nothing is found exactly when such a scan finds nothing.
pub open spec fn searched_leaf(
    found: Option<Result<KeyNode<'_>, NtHiveError>>,
    kind: LeafKind,
    hive: Seq<u8>,
    offsets: Seq<u32>,
    name: Seq<u16>,
) -> bool {
    &&& found_among(found, hive, offsets, name)
    &&& names_ascending(hive, offsets) ==> !(found is Some && found->0 is Err) && (found is None
        <==> none_named(hive, offsets, name))
    &&& kind is IndexLeaf ==> is_scanned_subkey(found, hive, scan_subkeys(hive, offsets, name))
    &&& kind is HashLeaf ==> (found is None <==> scan_subkeys(hive, offsets, name) is None)
}

/// Looks for the subkey with the given name among the `items` of a leaf of the given kind:
/// a Fast Leaf is searched by binary search, a Hash Leaf by hash, an Index Leaf from
/// the first item to the last.
///
/// Whatever the hive holds, a Key Node that is returned is one of the items and has that
/// name. Where the names of the items are in strictly ascending order, the Key Node with
/// that name is found if there is one. In an Index Leaf and in a Hash Leaf it is found
/// in any case, unless a Key Node that cannot be read comes before it.
pub fn search_leaf<'h>(kind: LeafKind, items: ListItems<'h>, name: &[u16]) -> (found: Option<
    Result<KeyNode<'h>, NtHiveError>,
>)
    requires
        kind is HashLeaf ==> items.has_hints(),
    ensures
        searched_leaf(found, kind, items.hive(), items.pending(), name@),
{
    proof {
        lemma_scan_subkeys(items.hive(), items.pending(), name@);
    }
    match kind {
        LeafKind::FastLeaf => search_sorted_leaf(items, name),
        LeafKind::HashLeaf => search_hash_leaf(items, name),
        LeafKind::IndexLeaf => scan_for_subkey(items, name),
    }
}

/// How the name of the Key Node at `data_offset` compares with `name`.
pub open spec fn order_of_subkey(hive: Seq<u8>, data_offset: u32, name: Seq<u16>) -> Ordering {
    compare_units(subkey_name(hive, data_offset)->Ok_0, name)
}

/// Whether the names of the Key Nodes at `offsets` all come before `name`.
pub open spec fn all_before(hive: Seq<u8>, offsets: Seq<u32>, name: Seq<u16>) -> bool {
    forall|i: int|
        0 <= i < offsets.len() ==> #[trigger] order_of_subkey(hive, offsets[i], name)
            == Ordering::Less
}

/// Whether the names of the Key Nodes at `offsets` all come after `name`.
pub open spec fn all_after(hive: Seq<u8>, offsets: Seq<u32>, name: Seq<u16>) -> bool {
    forall|i: int|
        0 <= i < offsets.len() ==> #[trigger] order_of_subkey(hive, offsets[i], name)
            == Ordering::Greater
}

/// Whether the leaf at `leaf_offset` can be read, is not empty, and has Key Nodes that can
/// all be read and have names in strictly ascending order.
pub open spec fn leaf_sorted(hive: Seq<u8>, leaf_offset: u32) -> bool {
    leaf_at(hive, leaf_offset) matches Ok(offsets) && offsets.len() > 0 && names_ascending(
        hive,
        offsets,
    )
}

/// Whether the last name of the leaf at `first` comes before the first name of the leaf
/// at `second`.
pub open spec fn leaf_precedes(hive: Seq<u8>, first: u32, second: u32) -> bool {
    leaf_at(hive, first) matches Ok(earlier) && leaf_at(hive, second) matches Ok(later)
        && earlier.len() > 0 && later.len() > 0 && compare_units(
        subkey_name(hive, earlier.last())->Ok_0,
        subkey_name(hive, later[0])->Ok_0,
    ) == Ordering::Less
}

/// Whether the leaves at `leaves` are each sorted and follow each other in the order of
/// their names, so that all names of the Index Root are in strictly ascending order.
pub open spec fn sorted_root(hive: Seq<u8>, leaves: Seq<u32>) -> bool {
    &&& forall|k: int| 0 <= k < leaves.len() ==> #[trigger] leaf_sorted(hive, leaves[k])
    &&& forall|k: int, l: int|
        0 <= k < l < leaves.len() ==> #[trigger] leaf_precedes(hive, leaves[k], leaves[l])
}

/// Whether the leaf at `leaf_offset` can be read and all its names come before `name`.
pub open spec fn leaf_all_before(hive: Seq<u8>, leaf_offset: u32, name: Seq<u16>) -> bool {
    leaf_at(hive, leaf_offset) matches Ok(offsets) && all_before(hive, offsets, name)
}

/// Whether the leaf at `leaf_offset` can be read and all its names come after `name`.
pub open spec fn leaf_all_after(hive: Seq<u8>, leaf_offset: u32, name: Seq<u16>) -> bool {
    leaf_at(hive, leaf_offset) matches Ok(offsets) && all_after(hive, offsets, name)
}

/// Whether no Key Node of the leaf at `leaf_offset` has the name `name`.
pub open spec fn none_in_leaf(hive: Seq<u8>, leaf_offset: u32, name: Seq<u16>) -> bool {
    leaf_at(hive, leaf_offset) matches Ok(offsets) ==> none_named(hive, offsets, name)
}

/// Whether no Key Node of the leaves at `leaves` has the name `name`.
pub open spec fn none_in_root(hive: Seq<u8>, leaves: Seq<u32>, name: Seq<u16>) -> bool {
    forall|k: int| 0 <= k < leaves.len() ==> #[trigger] none_in_leaf(hive, leaves[k], name)
}

/// Whether what a search returned comes from the leaf at `leaf_offset`: the fault of
/// the leaf if it cannot be read, else an entry of the leaf as [`found_among`] says.
pub open spec fn found_under(
    found: Option<Result<KeyNode<'_>, NtHiveError>>,
    hive: Seq<u8>,
    leaf_offset: u32,
    name: Seq<u16>,
) -> bool {
    match leaf_at(hive, leaf_offset) {
        Err(e) => found matches Some(Err(actual)) && actual == e,
        Ok(offsets) => found is Some && found_among(found, hive, offsets, name),
    }
}

/// Whether what a search returned comes from one of the leaves at `leaves`.
pub open spec fn found_in_root(
    found: Option<Result<KeyNode<'_>, NtHiveError>>,
    hive: Seq<u8>,
    leaves: Seq<u32>,
    name: Seq<u16>,
) -> bool {
    found is Some ==> exists|k: int|
        0 <= k < leaves.len() && #[trigger] found_under(found, hive, leaves[k], name)
}

/// In a sorted list whose first name comes after `name`, all names come after it.
pub proof fn lemma_all_after(hive: Seq<u8>, offsets: Seq<u32>, name: Seq<u16>)
    requires
        names_ascending(hive, offsets),
        offsets.len() > 0,
        order_of_subkey(hive, offsets[0], name) == Ordering::Greater,
    ensures
        all_after(hive, offsets, name),
{
    let first = subkey_name(hive, offsets[0])->Ok_0;
    law_compare_antisymmetric(first, name);
    assert forall|i: int| 0 <= i < offsets.len() implies #[trigger] order_of_subkey(
        hive,
        offsets[i],
        name,
    ) == Ordering::Greater by {
        if i > 0 {
            let other = subkey_name(hive, offsets[i])->Ok_0;
            law_compare_transitive(name, first, other);
            law_compare_antisymmetric(name, other);
        }
    }
}

/// In a sorted list whose last name comes before `name`, all names come before it.
pub proof fn lemma_all_before(hive: Seq<u8>, offsets: Seq<u32>, name: Seq<u16>)
    requires
        names_ascending(hive, offsets),
        offsets.len() > 0,
        order_of_subkey(hive, offsets.last(), name) == Ordering::Less,
    ensures
        all_before(hive, offsets, name),
{
    let last = subkey_name(hive, offsets.last())->Ok_0;
    assert forall|i: int| 0 <= i < offsets.len() implies #[trigger] order_of_subkey(
        hive,
        offsets[i],
        name,
    ) == Ordering::Less by {
        if i < offsets.len() - 1 {
            let other = subkey_name(hive, offsets[i])->Ok_0;
            law_compare_transitive(other, last, name);
        }
    }
}

/// Where the last name of a leaf does not come before `name`, all names of a leaf
/// that follows it come after `name`.
pub proof fn lemma_later_leaf_after(hive: Seq<u8>, earlier: u32, later: u32, name: Seq<u16>)
    requires
        leaf_sorted(hive, earlier),
        leaf_sorted(hive, later),
        leaf_precedes(hive, earlier, later),
        order_of_subkey(hive, leaf_at(hive, earlier)->Ok_0.last(), name) != Ordering::Less,
    ensures
        leaf_all_after(hive, later, name),
{
    let last = subkey_name(hive, leaf_at(hive, earlier)->Ok_0.last())->Ok_0;
    let first = subkey_name(hive, leaf_at(hive, later)->Ok_0[0])->Ok_0;
    law_compare_antisymmetric(last, name);
    law_compare_transitive(name, last, first);
    law_compare_antisymmetric(name, first);
    lemma_all_after(hive, leaf_at(hive, later)->Ok_0, name);
}

/// Where the first name of a leaf does not come after `name`, all names of a leaf
/// that it follows come before `name`.
pub proof fn lemma_earlier_leaf_before(hive: Seq<u8>, earlier: u32, later: u32, name: Seq<u16>)
    requires
        leaf_sorted(hive, earlier),
        leaf_sorted(hive, later),
        leaf_precedes(hive, earlier, later),
        order_of_subkey(hive, leaf_at(hive, later)->Ok_0[0], name) != Ordering::Greater,
    ensures
        leaf_all_before(hive, earlier, name),
{
    let last = subkey_name(hive, leaf_at(hive, earlier)->Ok_0.last())->Ok_0;
    let first = subkey_name(hive, leaf_at(hive, later)->Ok_0[0])->Ok_0;
    law_compare_transitive(last, first, name);
    lemma_all_before(hive, leaf_at(hive, earlier)->Ok_0, name);
}

/// A leaf whose names all come before `name`, or all after it, has no Key Node of that name.
pub proof fn lemma_none_beside(hive: Seq<u8>, leaf_offset: u32, name: Seq<u16>)
    requires
        leaf_all_before(hive, leaf_offset, name) || leaf_all_after(hive, leaf_offset, name),
    ensures
        none_in_leaf(hive, leaf_offset, name),
{
    let offsets = leaf_at(hive, leaf_offset)->Ok_0;
    assert forall|i: int| 0 <= i < offsets.len() implies !#[trigger] subkey_named(
        hive,
        offsets[i],
        name,
    ) by {
        assert(order_of_subkey(hive, offsets[i], name) != Ordering::Equal);
    }
}

/// Reads the Key Node of the item at `index` and compares its name with `name`.
pub fn compare_item<'h>(items: &ListItems<'h>, index: usize, name: &[u16]) -> (compared:
    Result<(KeyNode<'h>, Ordering), NtHiveError>)
    requires
        index < items.pending().len(),
    ensures
        match subkey_name(items.hive(), items.entry(index)) {
            Err(e) => compared is Err && compared->Err_0 == e,
            Ok(units) => compared is Ok && compared->Ok_0.1 == compare_units(units, name@)
                && reads_key_node(Ok(compared->Ok_0.0), items.hive(), items.entry(index)),
        },
{
    reveal(subkey_name);
    let hive = items.hive_data();
    let key_node = match KeyNode::from_data_offset(hive, items.offset_at(index)) {
        Ok(key_node) => key_node,
        Err(e) => { return Err(e); },
    };
    match key_node.name() {
        Ok(key_name) => Ok((key_node, key_name.cmp_units(name))),
        Err(e) => Err(e),
    }
}

/// Looks for the subkey with the given name in the leaves that the `elements` of an
/// Index Root refer to.
///
/// The leaf is found by binary search: the name is compared with the first and the last
/// name of a leaf, and the leaf that the name lies in is searched as [`search_leaf`] does.
///
/// Whatever the hive holds, a Key Node that is returned is an item of one of the leaves
/// and has that name. Where all names of the Index Root are in strictly ascending order,
/// the Key Node with that name is found if there is one.
pub fn search_index_root<'h>(elements: ListItems<'h>, name: &[u16]) -> (found: Option<
    Result<KeyNode<'h>, NtHiveError>,
>)
    ensures
        found_in_root(found, elements.hive(), elements.pending(), name@),
        sorted_root(elements.hive(), elements.pending()) ==> !(found is Some && found->0 is Err)
            && (found is None <==> none_in_root(elements.hive(), elements.pending(), name@)),
{
    let hive = elements.hive_data();
    let ghost leaves = elements.pending();
    let ghost sorted = sorted_root(hive@, leaves);
    let mut low: usize = 0;
    let mut high: usize = elements.count();
    while low < high
        invariant
            hive@ == elements.hive(),
            leaves == elements.pending(),
            sorted == sorted_root(hive@, leaves),
            low <= high <= leaves.len(),
            sorted ==> forall|k: int|
                0 <= k < low ==> #[trigger] leaf_all_before(hive@, leaves[k], name@),
            sorted ==> forall|k: int|
                high <= k < leaves.len() ==> #[trigger] leaf_all_after(hive@, leaves[k], name@),
        decreases high - low,
    {
        let middle: usize = low + (high - low) / 2;
        let leaf_offset = elements.offset_at(middle);
        assert(leaf_offset == elements.entry(middle));
        proof {
            reveal(leaf_at);
            if sorted {
                assert(leaf_sorted(hive@, leaf_offset));
            }
        }
        let opened = match hive.cell_range_from_data_offset(leaf_offset) {
            Err(e) => Err(e),
            Ok(cell_range) => open_leaf(hive, cell_range),
        };
        let (kind, items) = match opened {
            Ok(leaf) => leaf,
            Err(e) => {
                assert(found_under(Some(Err(e)), hive@, leaf_offset, name@));
                return Some(Err(e));
            },
        };
        let ghost offsets = items.pending();
        assert(leaf_at(hive@, leaf_offset) == Ok::<Seq<u32>, NtHiveError>(offsets));
        let count = items.count();
        if count == 0 {
            // Nothing to compare the name with: go on with the leaves after this one.
            low = middle + 1;
        } else {
            // Does the name come before the first name of this leaf?
            let (first_key, first_order) = match compare_item(&items, 0, name) {
                Ok(compared) => compared,
                Err(e) => {
                    assert(found_among(Some(Err(e)), hive@, offsets, name@)) by {
                        assert(subkey_name(hive@, offsets[0]) == Err::<Seq<u16>, NtHiveError>(e));
                    }
                    assert(found_under(Some(Err(e)), hive@, leaf_offset, name@));
                    return Some(Err(e));
                },
            };
            assert(first_order == order_of_subkey(hive@, offsets[0], name@));
            match first_order {
                Ordering::Equal => {
                    assert(found_among(Some(Ok(first_key)), hive@, offsets, name@)) by {
                        assert(subkey_named(hive@, offsets[0], name@));
                    }
                    assert(found_under(Some(Ok(first_key)), hive@, leaf_offset, name@));
                    proof {
                        if sorted {
                            assert(!none_in_leaf(hive@, leaf_offset, name@));
                        }
                    }
                    return Some(Ok(first_key));
                },
                Ordering::Greater => {
                    proof {
                        if sorted {
                            lemma_all_after(hive@, offsets, name@);
                            assert(order_of_subkey(hive@, offsets.last(), name@)
                                == Ordering::Greater);
                            assert forall|k: int| middle <= k < leaves.len() implies #[trigger] leaf_all_after(
                                hive@,
                                leaves[k],
                                name@,
                            ) by {
                                if k > middle {
                                    assert(leaf_sorted(hive@, leaves[k]));
                                    assert(leaf_precedes(hive@, leaf_offset, leaves[k]));
                                    lemma_later_leaf_after(
                                        hive@,
                                        leaf_offset,
                                        leaves[k],
                                        name@,
                                    );
                                }
                            }
                        }
                    }
                    high = middle;
                },
                Ordering::Less => {
                    // Does the name come after the last name of this leaf?
                    let (last_key, last_order) = match compare_item(&items, count - 1, name) {
                        Ok(compared) => compared,
                        Err(e) => {
                            assert(found_among(Some(Err(e)), hive@, offsets, name@)) by {
                                assert(subkey_name(hive@, offsets[count - 1]) == Err::<
                                    Seq<u16>,
                                    NtHiveError,
                                >(e));
                            }
                            assert(found_under(Some(Err(e)), hive@, leaf_offset, name@));
                            return Some(Err(e));
                        },
                    };
                    assert(offsets.last() == offsets[count - 1]);
                    assert(last_order == order_of_subkey(hive@, offsets.last(), name@));
                    proof {
                        if sorted {
                            // All names of the leaves before this one come before the name.
                            assert forall|k: int| 0 <= k < middle implies #[trigger] leaf_all_before(
                                hive@,
                                leaves[k],
                                name@,
                            ) by {
                                assert(leaf_sorted(hive@, leaves[k]));
                                assert(leaf_precedes(hive@, leaves[k], leaf_offset));
                                lemma_earlier_leaf_before(
                                    hive@,
                                    leaves[k],
                                    leaf_offset,
                                    name@,
                                );
                            }
                        }
                    }
                    match last_order {
                        Ordering::Equal => {
                            assert(found_among(Some(Ok(last_key)), hive@, offsets, name@)) by {
                                assert(subkey_named(hive@, offsets[count - 1], name@));
                            }
                            assert(found_under(Some(Ok(last_key)), hive@, leaf_offset, name@));
                            proof {
                                if sorted {
                                    assert(!none_in_leaf(hive@, leaf_offset, name@));
                                }
                            }
                            return Some(Ok(last_key));
                        },
                        Ordering::Less => {
                            proof {
                                if sorted {
                                    lemma_all_before(hive@, offsets, name@);
                                    assert(leaf_all_before(hive@, leaf_offset, name@));
                                }
                            }
                            low = middle + 1;
                        },
                        Ordering::Greater => {
                            // The name lies between the first and the last name of this leaf.
                            let found = search_leaf(kind, items, name);
                            proof {
                                if found is Some {
                                    assert(found_under(found, hive@, leaf_offset, name@));
                                }
                                if sorted {
                                    assert forall|k: int| 0 <= k < leaves.len() && k
                                        != middle implies #[trigger] none_in_leaf(
                                        hive@,
                                        leaves[k],
                                        name@,
                                    ) by {
                                        if k < middle {
                                            assert(leaf_all_before(hive@, leaves[k], name@));
                                        } else {
                                            assert(leaf_sorted(hive@, leaves[k]));
                                            assert(leaf_precedes(
                                                hive@,
                                                leaf_offset,
                                                leaves[k],
                                            ));
                                            lemma_later_leaf_after(
                                                hive@,
                                                leaf_offset,
                                                leaves[k],
                                                name@,
                                            );
                                        }
                                        lemma_none_beside(hive@, leaves[k], name@);
                                    }
                                    assert(none_in_leaf(hive@, leaf_offset, name@)
                                        == none_named(hive@, offsets, name@));
                                }
                            }
                            return found;
                        },
                    }
                },
            }
        }
    }
    proof {
        if sorted {
            assert forall|k: int| 0 <= k < leaves.len() implies #[trigger] none_in_leaf(
                hive@,
                leaves[k],
                name@,
            ) by {
                if k < low {
                    assert(leaf_all_before(hive@, leaves[k], name@));
                } else {
                    assert(leaf_all_after(hive@, leaves[k], name@));
                }
                lemma_none_beside(hive@, leaves[k], name@);
            }
        }
    }
    None
}

/// In a sorted leaf, the first name does not come after the last.
pub proof fn lemma_first_not_after_last(hive: Seq<u8>, offsets: Seq<u32>)
    requires
        names_ascending(hive, offsets),
        offsets.len() > 0,
    ensures
        compare_units(
            subkey_name(hive, offsets[0])->Ok_0,
            subkey_name(hive, offsets.last())->Ok_0,
        ) != Ordering::Greater,
{
    if offsets.len() == 1 {
        law_compare_reflexive(subkey_name(hive, offsets[0])->Ok_0);
    }
}

/// Decides whether all names of an Index Root are in strictly ascending case-insensitive
/// order: whether the leaves that its `elements` refer to are each sorted and follow each
/// other in the order of their names.
pub fn leaves_are_sorted<'h>(elements: ListItems<'h>) -> (sorted: bool)
    ensures
        sorted == sorted_root(elements.hive(), elements.pending()),
{
    let hive = elements.hive_data();
    let ghost leaves = elements.pending();
    let count = elements.count();
    let mut previous_last: Option<NtHiveNameString<'h>> = None;
    let mut index: usize = 0;
    while index < count
        invariant
            hive@ == elements.hive(),
            leaves == elements.pending(),
            count == leaves.len(),
            index <= count,
            index == 0 <==> previous_last is None,
            forall|k: int| 0 <= k < index ==> #[trigger] leaf_sorted(hive@, leaves[k]),
            previous_last matches Some(name) ==> subkey_name(
                hive@,
                leaf_at(hive@, leaves[index - 1])->Ok_0.last(),
            ) == Ok::<Seq<u16>, NtHiveError>(name.units()),
            forall|k: int, l: int|
                0 <= k < l < index ==> #[trigger] leaf_precedes(hive@, leaves[k], leaves[l]),
        decreases count - index,
    {
        let leaf_offset = elements.offset_at(index);
        assert(leaf_offset == elements.entry(index));
        proof {
            reveal(leaf_at);
        }
        let opened = match hive.cell_range_from_data_offset(leaf_offset) {
            Err(e) => Err(e),
            Ok(cell_range) => open_leaf(hive, cell_range),
        };
        let items = match opened {
            Ok((_, items)) => items,
            Err(_) => {
                assert(!leaf_sorted(hive@, leaf_offset));
                return false;
            },
        };
        let ghost offsets = items.pending();
        assert(leaf_at(hive@, leaf_offset) == Ok::<Seq<u32>, NtHiveError>(offsets));
        let leaf_count = items.count();
        if leaf_count == 0 || !names_are_ascending(items) {
            assert(!leaf_sorted(hive@, leaf_offset));
            return false;
        }
        assert(leaf_sorted(hive@, leaf_offset));
        let (first, last) = first_and_last_name(&items);
        let follows = match previous_last {
            None => true,
            Some(name) => {
                match name.cmp(&first) {
                    Ordering::Less => true,
                    _ => false,
                }
            },
        };
        if !follows {
            assert(leaf_sorted(hive@, leaves[index - 1]));
            assert(!leaf_precedes(hive@, leaves[index - 1], leaf_offset));
            return false;
        }
        proof {
            if index > 0 {
                let before = previous_last->0.units();
                assert(leaf_sorted(hive@, leaves[index - 1]));
                assert(leaf_precedes(hive@, leaves[index - 1], leaf_offset));
                assert forall|k: int| 0 <= k < index implies #[trigger] leaf_precedes(
                    hive@,
                    leaves[k],
                    leaf_offset,
                ) by {
                    if k < index - 1 {
                        assert(leaf_sorted(hive@, leaves[k]));
                        assert(leaf_precedes(hive@, leaves[k], leaves[index - 1]));
                        let middle = leaf_at(hive@, leaves[index - 1])->Ok_0;
                        let last_of_k = subkey_name(
                            hive@,
                            leaf_at(hive@, leaves[k])->Ok_0.last(),
                        )->Ok_0;
                        let first_of_middle = subkey_name(hive@, middle[0])->Ok_0;
                        lemma_first_not_after_last(hive@, middle);
                        law_compare_transitive(last_of_k, first_of_middle, before);
                        law_compare_transitive(last_of_k, before, first.units());
                    }
                }
            }
        }
        previous_last = Some(last);
        index += 1;
    }
    true
}

/// Reads the first and the last name of a sorted leaf.
pub fn first_and_last_name<'h>(items: &ListItems<'h>) -> (names: (
    NtHiveNameString<'h>,
    NtHiveNameString<'h>,
))
    requires
        items.pending().len() > 0,
        names_ascending(items.hive(), items.pending()),
    ensures
        subkey_name(items.hive(), items.pending()[0]) == Ok::<Seq<u16>, NtHiveError>(
            names.0.units(),
        ),
        subkey_name(items.hive(), items.pending().last()) == Ok::<Seq<u16>, NtHiveError>(
            names.1.units(),
        ),
{
    reveal(subkey_name);
    let hive = items.hive_data();
    let count = items.count();
    let ghost offsets = items.pending();
    assert(subkey_name(hive@, offsets[0]) is Ok);
    assert(subkey_name(hive@, offsets[count - 1]) is Ok);
    let first = match KeyNode::from_data_offset(hive, items.offset_at(0)) {
        Ok(key_node) => match key_node.name() {
            Ok(name) => name,
            Err(_) => unreached(),
        },
        Err(_) => unreached(),
    };
    let last = match KeyNode::from_data_offset(hive, items.offset_at(count - 1)) {
        Ok(key_node) => match key_node.name() {
            Ok(name) => name,
            Err(_) => unreached(),
        },
        Err(_) => unreached(),
    };
    (first, last)
}

} // verus!
