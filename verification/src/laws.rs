//! What holds of every hive, whatever its bytes are.
use crate::big_data::segments_from;
use crate::hive::cell_at;
use crate::key_node::{key_name_units, key_node_at, key_values_at, subkeys_at};
use crate::key_value::{
    data_location, data_type_at, dword_at, key_value_cell, multi_string_at, qword_at, string_at,
    value_name_units,
};
use vstd::prelude::*;

verus! {

/// Reading is a function of the bytes alone: whatever is read from two hives with the same
/// bytes, or from one hive twice, is the same, cell by cell, key by key and value by value.
pub proof fn law_same_bytes_same_answers(
    first: Seq<u8>,
    second: Seq<u8>,
    data_offset: u32,
    header: int,
    cell_end: int,
    list_position: int,
    bytes_left: int,
)
    requires
        first.len() == second.len(),
        forall|i: int| 0 <= i < first.len() ==> first[i] == second[i],
    ensures
        cell_at(first, data_offset) == cell_at(second, data_offset),
        key_node_at(first, data_offset) == key_node_at(second, data_offset),
        key_value_cell(first, data_offset) == key_value_cell(second, data_offset),
        key_name_units(first, header, cell_end) == key_name_units(second, header, cell_end),
        subkeys_at(first, header) == subkeys_at(second, header),
        key_values_at(first, header) == key_values_at(second, header),
        value_name_units(first, header, cell_end) == value_name_units(second, header, cell_end),
        data_type_at(first, header) == data_type_at(second, header),
        data_location(first, header) == data_location(second, header),
        dword_at(first, header) == dword_at(second, header),
        qword_at(first, header) == qword_at(second, header),
        string_at(first, header) == string_at(second, header),
        multi_string_at(first, header) == multi_string_at(second, header),
        segments_from(first, list_position, bytes_left) == segments_from(
            second,
            list_position,
            bytes_left,
        ),
{
    assert(first =~= second);
}

} // verus!
