//! The case-insensitive order of names, stated over sequences of UTF-16 code units,
//! and the laws that it obeys.
use crate::case_table::to_uppercase;
use crate::units::{encode_utf16, latin1_units, utf16le_units};
use core::cmp::Ordering;
use vstd::prelude::*;

verus! {

/// The order of two sequences of UTF-16 code units when every unit is folded to
/// uppercase first: the first pair of units that differ decides, and a sequence
/// that is a proper prefix of the other comes first.
pub open spec fn compare_units(this: Seq<u16>, other: Seq<u16>) -> Ordering
    decreases this.len(),
{
    if this.len() == 0 && other.len() == 0 {
        Ordering::Equal
    } else if this.len() == 0 {
        Ordering::Less
    } else if other.len() == 0 {
        Ordering::Greater
    } else if to_uppercase(this[0]) < to_uppercase(other[0]) {
        Ordering::Less
    } else if to_uppercase(this[0]) > to_uppercase(other[0]) {
        Ordering::Greater
    } else {
        compare_units(this.skip(1), other.skip(1))
    }
}

/// A sequence of code units with every unit folded to uppercase.
pub open spec fn fold_units(units: Seq<u16>) -> Seq<u16> {
    units.map_values(|unit: u16| to_uppercase(unit))
}

/// Every sequence compares equal to itself.
pub proof fn law_compare_reflexive(this: Seq<u16>)
    ensures
        compare_units(this, this) == Ordering::Equal,
    decreases this.len(),
{
    if this.len() > 0 {
        law_compare_reflexive(this.skip(1));
    }
}

/// Swapping the operands reverses the result: `Less` becomes `Greater`,
/// `Greater` becomes `Less`, and `Equal` stays.
pub proof fn law_compare_antisymmetric(this: Seq<u16>, other: Seq<u16>)
    ensures
        compare_units(this, other) == Ordering::Less <==> compare_units(other, this)
            == Ordering::Greater,
        compare_units(this, other) == Ordering::Greater <==> compare_units(other, this)
            == Ordering::Less,
        compare_units(this, other) == Ordering::Equal <==> compare_units(other, this)
            == Ordering::Equal,
    decreases this.len(),
{
    if this.len() > 0 && other.len() > 0 {
        law_compare_antisymmetric(this.skip(1), other.skip(1));
    }
}

/// The order is transitive: what is not after `middle`, which is not after `last`,
/// is not after `last`; and it is before `last` if one of the two steps is strict.
pub proof fn law_compare_transitive(first: Seq<u16>, middle: Seq<u16>, last: Seq<u16>)
    requires
        compare_units(first, middle) != Ordering::Greater,
        compare_units(middle, last) != Ordering::Greater,
    ensures
        compare_units(first, last) != Ordering::Greater,
        compare_units(first, middle) == Ordering::Less || compare_units(middle, last)
            == Ordering::Less ==> compare_units(first, last) == Ordering::Less,
        compare_units(first, middle) == Ordering::Equal && compare_units(middle, last)
            == Ordering::Equal ==> compare_units(first, last) == Ordering::Equal,
    decreases first.len(),
{
    if first.len() > 0 && middle.len() > 0 && last.len() > 0 {
        if to_uppercase(first[0]) == to_uppercase(middle[0]) && to_uppercase(middle[0])
            == to_uppercase(last[0]) {
            law_compare_transitive(first.skip(1), middle.skip(1), last.skip(1));
        }
    }
}

/// Two sequences compare equal exactly when they are the same after folding to uppercase.
pub proof fn law_equal_iff_same_folding(this: Seq<u16>, other: Seq<u16>)
    ensures
        compare_units(this, other) == Ordering::Equal <==> fold_units(this) == fold_units(other),
    decreases this.len(),
{
    if this.len() > 0 && other.len() > 0 {
        law_equal_iff_same_folding(this.skip(1), other.skip(1));
        assert(fold_units(this).skip(1) == fold_units(this.skip(1)));
        assert(fold_units(other).skip(1) == fold_units(other.skip(1)));
        assert(fold_units(this)[0] == to_uppercase(this[0]));
        assert(fold_units(other)[0] == to_uppercase(other[0]));
        if fold_units(this.skip(1)) == fold_units(other.skip(1)) && to_uppercase(this[0])
            == to_uppercase(other[0]) {
            assert(fold_units(this).len() == fold_units(other).len()) by {
                assert(fold_units(this).skip(1).len() == fold_units(other).skip(1).len());
            }
            assert forall|i: int| 0 <= i < fold_units(this).len() implies fold_units(this)[i]
                == fold_units(other)[i] by {
                if i > 0 {
                    assert(fold_units(this)[i] == fold_units(this).skip(1)[i - 1]);
                    assert(fold_units(other)[i] == fold_units(other).skip(1)[i - 1]);
                }
            }
            assert(fold_units(this) =~= fold_units(other));
        }
    } else {
        assert(fold_units(this).len() == this.len());
        assert(fold_units(other).len() == other.len());
        if this.len() == 0 && other.len() == 0 {
            assert(fold_units(this) =~= fold_units(other));
        }
    }
}

/// Equality across the encodings is closed: for the code units of a Latin-1 name,
/// of a UTF-16LE name and of a host string, once two of the three pairs
/// compare equal, every pair does, in either direction.
pub proof fn law_equality_closure(latin1: Seq<u8>, utf16le: Seq<u8>, host: Seq<char>)
    requires
        ({
            let a = latin1_units(latin1);
            let b = utf16le_units(utf16le);
            let c = encode_utf16(host);
            ||| compare_units(a, b) == Ordering::Equal && compare_units(b, c) == Ordering::Equal
            ||| compare_units(a, b) == Ordering::Equal && compare_units(a, c) == Ordering::Equal
            ||| compare_units(a, c) == Ordering::Equal && compare_units(b, c) == Ordering::Equal
        }),
    ensures
        ({
            let a = latin1_units(latin1);
            let b = utf16le_units(utf16le);
            let c = encode_utf16(host);
            &&& compare_units(a, b) == Ordering::Equal
            &&& compare_units(b, a) == Ordering::Equal
            &&& compare_units(a, c) == Ordering::Equal
            &&& compare_units(c, a) == Ordering::Equal
            &&& compare_units(b, c) == Ordering::Equal
            &&& compare_units(c, b) == Ordering::Equal
        }),
{
    let a = latin1_units(latin1);
    let b = utf16le_units(utf16le);
    let c = encode_utf16(host);
    law_equal_iff_same_folding(a, b);
    law_equal_iff_same_folding(b, a);
    law_equal_iff_same_folding(a, c);
    law_equal_iff_same_folding(c, a);
    law_equal_iff_same_folding(b, c);
    law_equal_iff_same_folding(c, b);
}

} // verus!
