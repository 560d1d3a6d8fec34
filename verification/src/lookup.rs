//! Finding a subkey or a value by its name.
use crate::case_table::{to_uppercase, utf16_code_unit_to_uppercase};
use crate::error::NtHiveError;
use crate::key_node::{reads_key_node, subkey_name, KeyNode};
use crate::key_value::{reads_key_value, value_name, KeyValue};
use crate::leaf::ListItems;
use crate::name_order::{compare_units, law_compare_antisymmetric, law_compare_transitive};
use core::cmp::Ordering;
use vstd::prelude::*;

verus! {

/// Whether the Key Node that `data_offset` refers to can be read and has a name that
/// equals `name`, case-insensitively.
pub open spec fn subkey_named(hive: Seq<u8>, data_offset: u32, name: Seq<u16>) -> bool {
    subkey_name(hive, data_offset) matches Ok(units) && compare_units(units, name)
        == Ordering::Equal
}

/// What a scan of the subkeys at `offsets` for `name` comes to, from the first to the last:
/// the data offset of the first Key Node with that name, or the fault of the first
/// Key Node that cannot be read if that comes before, or `None` at the end of the list.
pub open spec fn scan_subkeys(hive: Seq<u8>, offsets: Seq<u32>, name: Seq<u16>) -> Option<
    Result<u32, NtHiveError>,
>
    decreases offsets.len(),
{
    if offsets.len() == 0 {
        None
    } else {
        match subkey_name(hive, offsets[0]) {
            Err(e) => Some(Err(e)),
            Ok(units) => if compare_units(units, name) == Ordering::Equal {
                Some(Ok(offsets[0]))
            } else {
                scan_subkeys(hive, offsets.skip(1), name)
            },
        }
    }
}

/// What a scan of the values at `offsets` for `name` comes to, from the first to the last:
/// the data offset of the first Key Value with that name, or the fault of the first
/// Key Value that cannot be read if that comes before, or `None` at the end of the list.
pub open spec fn scan_values(hive: Seq<u8>, offsets: Seq<u32>, name: Seq<u16>) -> Option<
    Result<u32, NtHiveError>,
>
    decreases offsets.len(),
{
    if offsets.len() == 0 {
        None
    } else {
        match value_name(hive, offsets[0]) {
            Err(e) => Some(Err(e)),
            Ok(units) => if compare_units(units, name) == Ordering::Equal {
                Some(Ok(offsets[0]))
            } else {
                scan_values(hive, offsets.skip(1), name)
            },
        }
    }
}

/// Whether `found` is the outcome `scanned` of a scan for a subkey.
pub open spec fn is_scanned_subkey(
    found: Option<Result<KeyNode<'_>, NtHiveError>>,
    hive: Seq<u8>,
    scanned: Option<Result<u32, NtHiveError>>,
) -> bool {
    match scanned {
        None => found is None,
        Some(Err(e)) => found matches Some(Err(actual)) && actual == e,
        Some(Ok(data_offset)) => found matches Some(Ok(_)) && reads_key_node(
            found->0,
            hive,
            data_offset,
        ),
    }
}

/// Whether `found` is the outcome `scanned` of a scan for a value.
pub open spec fn is_scanned_value(
    found: Option<Result<KeyValue<'_>, NtHiveError>>,
    hive: Seq<u8>,
    scanned: Option<Result<u32, NtHiveError>>,
) -> bool {
    match scanned {
        None => found is None,
        Some(Err(e)) => found matches Some(Err(actual)) && actual == e,
        Some(Ok(data_offset)) => found matches Some(Ok(_)) && reads_key_value(
            found->0,
            hive,
            data_offset,
        ),
    }
}

/// Looks for the subkey with the given name among `items`, from the first to the last.
pub fn scan_for_subkey<'h>(items: ListItems<'h>, name: &[u16]) -> (found: Option<
    Result<KeyNode<'h>, NtHiveError>,
>)
    ensures
        is_scanned_subkey(found, items.hive(), scan_subkeys(items.hive(), items.pending(), name@)),
{
    let mut rest = items;
    loop
        invariant
            rest.hive() == items.hive(),
            scan_subkeys(items.hive(), items.pending(), name@) == scan_subkeys(
                items.hive(),
                rest.pending(),
                name@,
            ),
        decreases rest.pending().len(),
    {
        reveal(subkey_name);
        match rest.next_key_node() {
            None => {
                return None;
            },
            Some(Err(e)) => {
                return Some(Err(e));
            },
            Some(Ok(key_node)) => {
                match key_node.name() {
                    Err(e) => {
                        return Some(Err(e));
                    },
                    Ok(key_name) => {
                        match key_name.cmp_units(name) {
                            Ordering::Equal => {
                                return Some(Ok(key_node));
                            },
                            _ => {},
                        }
                    },
                }
            },
        }
    }
}

/// Looks for the value with the given name among `items`, from the first to the last.
pub fn scan_for_value<'h>(items: ListItems<'h>, name: &[u16]) -> (found: Option<
    Result<KeyValue<'h>, NtHiveError>,
>)
    ensures
        is_scanned_value(found, items.hive(), scan_values(items.hive(), items.pending(), name@)),
{
    let mut rest = items;
    let hive = items.hive_data();
    loop
        invariant
            hive@ == items.hive(),
            rest.hive() == items.hive(),
            scan_values(items.hive(), items.pending(), name@) == scan_values(
                items.hive(),
                rest.pending(),
                name@,
            ),
        decreases rest.pending().len(),
    {
        reveal(value_name);
        match rest.next_offset() {
            None => {
                return None;
            },
            Some(data_offset) => {
                match KeyValue::from_data_offset(hive, data_offset) {
                    Err(e) => {
                        return Some(Err(e));
                    },
                    Ok(key_value) => {
                        match key_value.name() {
                            Err(e) => {
                                return Some(Err(e));
                            },
                            Ok(value_name) => {
                                match value_name.cmp_units(name) {
                                    Ordering::Equal => {
                                        return Some(Ok(key_value));
                                    },
                                    _ => {},
                                }
                            },
                        }
                    },
                }
            },
        }
    }
}

/// The hash of a name as a Hash Leaf stores it: every code unit is folded to uppercase,
/// and the hash so far is multiplied by 37 before the unit is added, all in 32 bits.
pub open spec fn name_hash(units: Seq<u16>) -> u32
    decreases units.len(),
{
    if units.len() == 0 {
        0
    } else {
        ((name_hash(units.drop_last()) * 37 + to_uppercase(units.last())) % 0x1_0000_0000) as u32
    }
}

/// Computes the hash of a name as a Hash Leaf stores it.
pub fn hash_name(units: &[u16]) -> (hash: u32)
    ensures
        hash == name_hash(units@),
{
    let mut hash: u32 = 0;
    let mut index: usize = 0;
    while index < units.len()
        invariant
            index <= units@.len(),
            hash == name_hash(units@.take(index as int)),
        decreases units@.len() - index,
    {
        let upper = utf16_code_unit_to_uppercase(units[index]);
        let wide: u64 = hash as u64 * 37 + upper as u64;
        proof {
            let longer = units@.take(index + 1);
            assert(longer.drop_last() == units@.take(index as int));
            assert(longer.last() == units@[index as int]);
        }
        hash = (wide % 0x1_0000_0000) as u32;
        index += 1;
    }
    assert(units@.take(index as int) == units@);
    hash
}

/// Whether what a search returned is an entry of the list that was searched: a Key Node that
/// was found is that of an item, and has the name that was looked for; a fault that is
/// reported is that of an item.
pub open spec fn found_among(
    found: Option<Result<KeyNode<'_>, NtHiveError>>,
    hive: Seq<u8>,
    offsets: Seq<u32>,
    name: Seq<u16>,
) -> bool {
    match found {
        None => true,
        Some(Ok(_)) => exists|i: int|
            0 <= i < offsets.len() && #[trigger] subkey_named(hive, offsets[i], name)
                && reads_key_node(found->0, hive, offsets[i]),
        Some(Err(e)) => exists|i: int|
            0 <= i < offsets.len() && #[trigger] subkey_name(hive, offsets[i]) == Err::<
                Seq<u16>,
                NtHiveError,
            >(e),
    }
}

/// Whether the Key Nodes at `offsets` can all be read and have names in strictly
/// ascending case-insensitive order.
pub open spec fn names_ascending(hive: Seq<u8>, offsets: Seq<u32>) -> bool {
    &&& forall|i: int| 0 <= i < offsets.len() ==> #[trigger] subkey_name(hive, offsets[i]) is Ok
    &&& forall|i: int, j: int|
        0 <= i < j < offsets.len() ==> compare_units(
            #[trigger] subkey_name(hive, offsets[i])->Ok_0,
            #[trigger] subkey_name(hive, offsets[j])->Ok_0,
        ) == Ordering::Less
}

/// Whether none of the Key Nodes at `offsets` has the name `name`.
pub open spec fn none_named(hive: Seq<u8>, offsets: Seq<u32>, name: Seq<u16>) -> bool {
    forall|i: int| 0 <= i < offsets.len() ==> !#[trigger] subkey_named(hive, offsets[i], name)
}

/// Looks for the subkey with the given name among `items` by binary search.
///
/// Whatever the hive holds, a Key Node that is returned is one of the items and has that
/// name. Where the names of the items are in strictly ascending order, the Key Node with
/// that name is found if there is one.
pub fn search_sorted_leaf<'h>(items: ListItems<'h>, name: &[u16]) -> (found: Option<
    Result<KeyNode<'h>, NtHiveError>,
>)
    ensures
        found_among(found, items.hive(), items.pending(), name@),
        names_ascending(items.hive(), items.pending()) ==> !(found is Some && found->0 is Err)
            && (found is None <==> none_named(items.hive(), items.pending(), name@)),
{
    let hive = items.hive_data();
    let ghost offsets = items.pending();
    let ghost sorted = names_ascending(hive@, offsets);
    let mut low: usize = 0;
    let mut high: usize = items.count();
    while low < high
        invariant
            hive@ == items.hive(),
            offsets == items.pending(),
            sorted == names_ascending(hive@, offsets),
            low <= high <= offsets.len(),
            sorted ==> forall|i: int|
                0 <= i < low ==> compare_units(
                    #[trigger] subkey_name(hive@, offsets[i])->Ok_0,
                    name@,
                ) == Ordering::Less,
            sorted ==> forall|i: int|
                high <= i < offsets.len() ==> compare_units(
                    #[trigger] subkey_name(hive@, offsets[i])->Ok_0,
                    name@,
                ) == Ordering::Greater,
        decreases high - low,
    {
        reveal(subkey_name);
        let middle: usize = low + (high - low) / 2;
        let data_offset = items.offset_at(middle);
        let key_node = match KeyNode::from_data_offset(hive, data_offset) {
            Ok(key_node) => key_node,
            Err(e) => {
                assert(subkey_name(hive@, data_offset) == Err::<Seq<u16>, NtHiveError>(e));
                return Some(Err(e));
            },
        };
        let key_name = match key_node.name() {
            Ok(key_name) => key_name,
            Err(e) => {
                assert(subkey_name(hive@, data_offset) == Err::<Seq<u16>, NtHiveError>(e));
                return Some(Err(e));
            },
        };
        let ghost middle_units = key_name.units();
        assert(subkey_name(hive@, data_offset) == Ok::<Seq<u16>, NtHiveError>(middle_units));
        match key_name.cmp_units(name) {
            Ordering::Equal => {
                assert(subkey_named(hive@, data_offset, name@));
                return Some(Ok(key_node));
            },
            Ordering::Less => {
                proof {
                    if sorted {
                        assert forall|i: int| 0 <= i < middle + 1 implies compare_units(
                            #[trigger] subkey_name(hive@, offsets[i])->Ok_0,
                            name@,
                        ) == Ordering::Less by {
                            if i < middle {
                                law_compare_transitive(
                                    subkey_name(hive@, offsets[i])->Ok_0,
                                    middle_units,
                                    name@,
                                );
                            }
                        }
                    }
                }
                low = middle + 1;
            },
            Ordering::Greater => {
                proof {
                    if sorted {
                        assert forall|i: int| middle <= i < offsets.len() implies compare_units(
                            #[trigger] subkey_name(hive@, offsets[i])->Ok_0,
                            name@,
                        ) == Ordering::Greater by {
                            if i > middle {
                                let later = subkey_name(hive@, offsets[i])->Ok_0;
                                law_compare_antisymmetric(middle_units, name@);
                                law_compare_transitive(name@, middle_units, later);
                                law_compare_antisymmetric(name@, later);
                            }
                        }
                    }
                }
                high = middle;
            },
        }
    }
    None
}

/// What a scan of subkeys comes to is an entry of the list, and a scan comes to nothing
/// exactly when every Key Node of the list can be read and none has the name.
pub proof fn lemma_scan_subkeys(hive: Seq<u8>, offsets: Seq<u32>, name: Seq<u16>)
    ensures
        scan_subkeys(hive, offsets, name) matches Some(Ok(data_offset)) ==> exists|i: int|
            0 <= i < offsets.len() && offsets[i] == data_offset && #[trigger] subkey_named(
                hive,
                offsets[i],
                name,
            ),
        scan_subkeys(hive, offsets, name) matches Some(Err(e)) ==> exists|i: int|
            0 <= i < offsets.len() && #[trigger] subkey_name(hive, offsets[i]) == Err::<
                Seq<u16>,
                NtHiveError,
            >(e),
        scan_subkeys(hive, offsets, name) is None <==> none_named(hive, offsets, name) && forall|
            i: int,
        |
            0 <= i < offsets.len() ==> #[trigger] subkey_name(hive, offsets[i]) is Ok,
    decreases offsets.len(),
{
    if offsets.len() > 0 {
        let rest = offsets.skip(1);
        lemma_scan_subkeys(hive, rest, name);
        assert(forall|i: int| 0 <= i < rest.len() ==> rest[i] == offsets[i + 1]);
        match subkey_name(hive, offsets[0]) {
            Err(e) => {},
            Ok(units) => {
                if compare_units(units, name) == Ordering::Equal {
                    assert(subkey_named(hive, offsets[0], name));
                } else {
                    match scan_subkeys(hive, rest, name) {
                        Some(Ok(data_offset)) => {
                            let i = choose|i: int|
                                0 <= i < rest.len() && rest[i] == data_offset
                                    && #[trigger] subkey_named(hive, rest[i], name);
                            assert(subkey_named(hive, offsets[i + 1], name));
                        },
                        Some(Err(e)) => {
                            let i = choose|i: int|
                                0 <= i < rest.len() && #[trigger] subkey_name(hive, rest[i])
                                    == Err::<Seq<u16>, NtHiveError>(e);
                            assert(subkey_name(hive, offsets[i + 1]) == Err::<
                                Seq<u16>,
                                NtHiveError,
                            >(e));
                        },
                        None => {
                            assert forall|i: int| 0 <= i < offsets.len() implies !#[trigger] subkey_named(
                                hive,
                                offsets[i],
                                name,
                            ) by {
                                if i > 0 {
                                    assert(rest[i - 1] == offsets[i]);
                                    assert(!subkey_named(hive, rest[i - 1], name));
                                }
                            }
                            assert forall|i: int| 0 <= i < offsets.len() implies #[trigger] subkey_name(
                                hive,
                                offsets[i],
                            ) is Ok by {
                                if i > 0 {
                                    assert(rest[i - 1] == offsets[i]);
                                    assert(subkey_name(hive, rest[i - 1]) is Ok);
                                }
                            }
                        },
                    }
                    if none_named(hive, offsets, name) && (forall|i: int|
                        0 <= i < offsets.len() ==> #[trigger] subkey_name(hive, offsets[i]) is Ok) {
                        assert forall|i: int| 0 <= i < rest.len() implies !#[trigger] subkey_named(
                            hive,
                            rest[i],
                            name,
                        ) by {
                            assert(rest[i] == offsets[i + 1]);
                            assert(!subkey_named(hive, offsets[i + 1], name));
                        }
                        assert forall|i: int| 0 <= i < rest.len() implies #[trigger] subkey_name(
                            hive,
                            rest[i],
                        ) is Ok by {
                            assert(rest[i] == offsets[i + 1]);
                            assert(subkey_name(hive, offsets[i + 1]) is Ok);
                        }
                    }
                }
            },
        }
    }
}

/// Looks for the subkey with the given name among the `items` of a Hash Leaf.
///
/// The hash of the name is looked up among the hashes of the items by binary search,
/// and the items with that hash are compared by name. Where this finds nothing, because
/// there is no such subkey or because the hashes are not what they should be, the
/// items are scanned from the first to the last.
pub fn search_hash_leaf<'h>(items: ListItems<'h>, name: &[u16]) -> (found: Option<
    Result<KeyNode<'h>, NtHiveError>,
>)
    requires
        items.has_hints(),
    ensures
        found_among(found, items.hive(), items.pending(), name@),
        found is None <==> scan_subkeys(items.hive(), items.pending(), name@) is None,
{
    let hive = items.hive_data();
    let hash = hash_name(name);
    let count = items.count();

    // Find the first item whose hash is not below the hash of the name.
    let mut low: usize = 0;
    let mut high: usize = count;
    while low < high
        invariant
            items.has_hints(),
            count == items.pending_hints().len(),
            low <= high <= count,
        decreases high - low,
    {
        let middle: usize = low + (high - low) / 2;
        if items.hint_at(middle) < hash {
            low = middle + 1;
        } else {
            high = middle;
        }
    }

    // Compare the names of the items that have the hash of the name.
    let mut index: usize = low;
    while index < count
        invariant
            hive@ == items.hive(),
            items.has_hints(),
            count == items.pending_hints().len(),
            count == items.pending().len(),
            index <= count,
        decreases count - index,
    {
        if items.hint_at(index) != hash {
            break ;
        }
        let data_offset = items.offset_at(index);
        match KeyNode::from_data_offset(hive, data_offset) {
            Err(_) => {
                break ;
            },
            Ok(key_node) => {
                match key_node.name() {
                    Err(_) => {
                        break ;
                    },
                    Ok(key_name) => {
                        match key_name.cmp_units(name) {
                            Ordering::Equal => {
                                proof {
                                    reveal(subkey_name);
                                    assert(subkey_named(hive@, data_offset, name@));
                                    lemma_scan_subkeys(hive@, items.pending(), name@);
                                }
                                return Some(Ok(key_node));
                            },
                            _ => {},
                        }
                    },
                }
            },
        }
        index += 1;
    }

    proof {
        lemma_scan_subkeys(items.hive(), items.pending(), name@);
    }
    scan_for_subkey(items, name)
}

/// Decides whether the Key Nodes of `items` can all be read and have names in strictly
/// ascending case-insensitive order, as the format demands of the leaves that are
/// searched by name.
pub fn names_are_ascending<'h>(items: ListItems<'h>) -> (ascending: bool)
    ensures
        ascending == names_ascending(items.hive(), items.pending()),
{
    let hive = items.hive_data();
    let ghost offsets = items.pending();
    let count = items.count();
    let mut previous: Option<crate::string::NtHiveNameString<'h>> = None;
    let mut index: usize = 0;
    while index < count
        invariant
            hive@ == items.hive(),
            offsets == items.pending(),
            count == offsets.len(),
            index <= count,
            index == 0 <==> previous is None,
            forall|i: int| 0 <= i < index ==> #[trigger] subkey_name(hive@, offsets[i]) is Ok,
            previous matches Some(name) ==> subkey_name(hive@, offsets[index - 1]) == Ok::<
                Seq<u16>,
                NtHiveError,
            >(name.units()),
            forall|i: int, j: int|
                0 <= i < j < index ==> compare_units(
                    #[trigger] subkey_name(hive@, offsets[i])->Ok_0,
                    #[trigger] subkey_name(hive@, offsets[j])->Ok_0,
                ) == Ordering::Less,
        decreases count - index,
    {
        reveal(subkey_name);
        let data_offset = items.offset_at(index);
        let key_node = match KeyNode::from_data_offset(hive, data_offset) {
            Ok(key_node) => key_node,
            Err(_) => {
                assert(!(subkey_name(hive@, data_offset) is Ok));
                return false;
            },
        };
        let key_name = match key_node.name() {
            Ok(key_name) => key_name,
            Err(_) => {
                assert(!(subkey_name(hive@, data_offset) is Ok));
                return false;
            },
        };
        assert(subkey_name(hive@, data_offset) == Ok::<Seq<u16>, NtHiveError>(
            key_name.units(),
        ));
        match previous {
            None => {},
            Some(earlier) => {
                match earlier.cmp(&key_name) {
                    Ordering::Less => {
                        assert forall|i: int| 0 <= i < index implies compare_units(
                            #[trigger] subkey_name(hive@, offsets[i])->Ok_0,
                            key_name.units(),
                        ) == Ordering::Less by {
                            if i < index - 1 {
                                law_compare_transitive(
                                    subkey_name(hive@, offsets[i])->Ok_0,
                                    earlier.units(),
                                    key_name.units(),
                                );
                            }
                        }
                    },
                    _ => {
                        assert(compare_units(
                            subkey_name(hive@, offsets[index - 1])->Ok_0,
                            subkey_name(hive@, data_offset)->Ok_0,
                        ) != Ordering::Less);
                        return false;
                    },
                }
            },
        }
        previous = Some(key_name);
        index += 1;
    }
    true
}

} // verus!
