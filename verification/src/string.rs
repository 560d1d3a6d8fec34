//! Key and value names as they are stored in a hive, and their case-insensitive order.
use crate::case_table::utf16_code_unit_to_uppercase;
use crate::name_order::compare_units;
use crate::units::{
    decode_utf16, decode_utf16_checked, decode_utf16_lossy, encode_utf16, latin1_chars,
    latin1_units, or_replacement, str_units, utf16le_units, CodeUnitIter, CodeUnitSource,
    REPLACEMENT_CHARACTER,
};
use core::cmp::Ordering;
use vstd::prelude::*;

verus! {

/// Converts Latin-1 bytes to an owned `String`: every byte is the code point of its character.
pub fn latin1_to_string(bytes: &[u8]) -> (string: String)
    ensures
        string@ == latin1_chars(bytes@),
{
    let mut string = String::new();
    let mut index: usize = 0;
    while index < bytes.len()
        invariant
            index <= bytes@.len(),
            string@ == latin1_chars(bytes@.take(index as int)),
        decreases bytes@.len() - index,
    {
        string.push(bytes[index] as char);
        index += 1;
        assert(latin1_chars(bytes@.take(index as int)) == latin1_chars(
            bytes@.take(index - 1),
        ).push(bytes@[index - 1] as char));
    }
    assert(bytes@.take(index as int) == bytes@);
    string
}

/// Zero-copy representation of a key name or value name string stored in hive data.
/// Can be either in Latin1 (ISO-8859-1) or UTF-16 (Little-Endian).
///
/// This allows to work with the string without performing any allocations or conversions.
/// [`to_string_checked`](NtHiveNameString::to_string_checked) and
/// [`to_string_lossy`](NtHiveNameString::to_string_lossy) can be used to retrieve a `String`.
#[derive(Clone, Copy, Debug)]
pub enum NtHiveNameString<'h> {
    /// A byte stream where each byte is a single character of the Latin1 (ISO-8859-1)
    /// character set.
    Latin1(&'h [u8]),
    /// A byte stream where every two bytes make up a UTF-16 code unit in little-endian order.
    Utf16LE(&'h [u8]),
}

impl<'h> NtHiveNameString<'h> {
    /// The bytes of the name as they are stored.
    pub open spec fn bytes(&self) -> Seq<u8> {
        match self {
            NtHiveNameString::Latin1(bytes) => bytes@,
            NtHiveNameString::Utf16LE(bytes) => bytes@,
        }
    }

    /// The name as UTF-16 code units.
    pub open spec fn units(&self) -> Seq<u16> {
        match self {
            NtHiveNameString::Latin1(bytes) => latin1_units(bytes@),
            NtHiveNameString::Utf16LE(bytes) => utf16le_units(bytes@),
        }
    }

    /// Walks two streams of code units in lock-step and compares them case-insensitively.
    pub fn cmp_iter(this_iter: CodeUnitIter<'_>, other_iter: CodeUnitIter<'_>) -> (order: Ordering)
        ensures
            order == compare_units(this_iter.remaining(), other_iter.remaining()),
    {
        let mut this_rest = this_iter;
        let mut other_rest = other_iter;
        loop
            invariant
                compare_units(this_iter.remaining(), other_iter.remaining()) == compare_units(
                    this_rest.remaining(),
                    other_rest.remaining(),
                ),
            decreases this_rest.remaining().len(),
        {
            match (this_rest.next(), other_rest.next()) {
                (Some(this_code_unit), Some(other_code_unit)) => {
                    // We have two UTF-16 code units to compare.
                    let this_upper = utf16_code_unit_to_uppercase(this_code_unit);
                    let other_upper = utf16_code_unit_to_uppercase(other_code_unit);

                    if this_upper < other_upper {
                        return Ordering::Less;
                    } else if this_upper > other_upper {
                        return Ordering::Greater;
                    }
                },
                (Some(_), None) => {
                    // `this_iter` is longer than `other_iter` but otherwise equal.
                    return Ordering::Greater;
                },
                (None, Some(_)) => {
                    // `other_iter` is longer than `this_iter` but otherwise equal.
                    return Ordering::Less;
                },
                (None, None) => {
                    // We made it to the end of both strings, so they must be equal.
                    return Ordering::Equal;
                },
            }
        }
    }

    /// Compares a name with a host string, case-insensitively.
    pub fn cmp_self_and_str(lhs: &Self, rhs: &str) -> (order: Ordering)
        ensures
            order == compare_units(lhs.units(), encode_utf16(rhs@)),
    {
        let rhs_units = str_units(rhs);
        let rhs_iter = CodeUnitIter::new(CodeUnitSource::Native(rhs_units.as_slice()));

        match lhs {
            NtHiveNameString::Latin1(_) => Self::cmp_iter(lhs.latin1_iter(), rhs_iter),
            NtHiveNameString::Utf16LE(_) => Self::cmp_iter(lhs.utf16le_iter(), rhs_iter),
        }
    }

    /// Compares a name with UTF-16 code units, case-insensitively.
    pub fn cmp_units(&self, units: &[u16]) -> (order: Ordering)
        ensures
            order == compare_units(self.units(), units@),
    {
        let units_iter = CodeUnitIter::new(CodeUnitSource::Native(units));

        match self {
            NtHiveNameString::Latin1(_) => Self::cmp_iter(self.latin1_iter(), units_iter),
            NtHiveNameString::Utf16LE(_) => Self::cmp_iter(self.utf16le_iter(), units_iter),
        }
    }

    /// Compares a host string with a name, case-insensitively.
    pub fn cmp_str_and_self(lhs: &str, rhs: &Self) -> (order: Ordering)
        ensures
            order == compare_units(encode_utf16(lhs@), rhs.units()),
    {
        let lhs_units = str_units(lhs);
        let lhs_iter = CodeUnitIter::new(CodeUnitSource::Native(lhs_units.as_slice()));

        match rhs {
            NtHiveNameString::Latin1(_) => Self::cmp_iter(lhs_iter, rhs.latin1_iter()),
            NtHiveNameString::Utf16LE(_) => Self::cmp_iter(lhs_iter, rhs.utf16le_iter()),
        }
    }

    /// A cursor over the code units of a Latin1 name.
    pub fn latin1_iter(&self) -> (iter: CodeUnitIter<'h>)
        requires
            self is Latin1,
        ensures
            iter.remaining() == self.units(),
    {
        match self {
            NtHiveNameString::Latin1(bytes) => CodeUnitIter::new(CodeUnitSource::Latin1(*bytes)),
            NtHiveNameString::Utf16LE(_) => unreached(),
        }
    }

    /// A cursor over the code units of a UTF-16LE name.
    pub fn utf16le_iter(&self) -> (iter: CodeUnitIter<'h>)
        requires
            self is Utf16LE,
        ensures
            iter.remaining() == self.units(),
    {
        match self {
            NtHiveNameString::Latin1(_) => unreached(),
            NtHiveNameString::Utf16LE(bytes) => CodeUnitIter::new(CodeUnitSource::Utf16LE(*bytes)),
        }
    }

    /// Returns `true` if `self` has a length of zero bytes.
    pub fn is_empty(&self) -> (empty: bool)
        ensures
            empty == (self.bytes().len() == 0),
    {
        self.len() == 0
    }

    /// Returns the length of `self`.
    ///
    /// This length is in bytes, not characters! In other words,
    /// it may not be what a human considers the length of the string.
    pub fn len(&self) -> (length: usize)
        ensures
            length == self.bytes().len(),
    {
        match self {
            NtHiveNameString::Latin1(bytes) => bytes.len(),
            NtHiveNameString::Utf16LE(bytes) => bytes.len(),
        }
    }

    /// The characters of the name, or `None` if it holds an unpaired surrogate.
    pub open spec fn chars_checked(&self) -> Option<Seq<char>> {
        match self {
            NtHiveNameString::Latin1(bytes) => Some(latin1_chars(bytes@)),
            NtHiveNameString::Utf16LE(bytes) => decode_utf16_checked(utf16le_units(bytes@)),
        }
    }

    /// The characters of the name, with U+FFFD in place of every unpaired surrogate.
    pub open spec fn chars_lossy(&self) -> Seq<char> {
        match self {
            NtHiveNameString::Latin1(bytes) => latin1_chars(bytes@),
            NtHiveNameString::Utf16LE(bytes) => decode_utf16_lossy(utf16le_units(bytes@)),
        }
    }

    /// Attempts to convert `self` to an owned `String`.
    /// Returns `Some(String)` if all characters could be converted successfully or `None` if a
    /// decoding error occurred.
    #[verifier::loop_isolation(false)]
    pub fn to_string_checked(&self) -> (converted: Option<String>)
        ensures
            match self.chars_checked() {
                Some(chars) => converted is Some && converted->0@ == chars,
                None => converted is None,
            },
    {
        match self {
            NtHiveNameString::Latin1(bytes) => Some(latin1_to_string(bytes)),
            NtHiveNameString::Utf16LE(bytes) => {
                let mut string = String::new();
                let mut iter = CodeUnitIter::new(CodeUnitSource::Utf16LE(*bytes));
                let ghost decoded = decode_utf16(utf16le_units(bytes@));
                let ghost mut done: Seq<Option<char>> = Seq::empty();
                loop
                    invariant
                        decoded == decode_utf16(utf16le_units(bytes@)),
                        decoded == done + decode_utf16(iter.remaining()),
                        forall|i: int| 0 <= i < done.len() ==> done[i] is Some,
                        string@ == done.map_values(|step: Option<char>| step->0),
                    decreases iter.remaining().len(),
                {
                    let ghost rest = decode_utf16(iter.remaining());
                    match iter.next_char() {
                        None => {
                            assert(decoded == done);
                            return Some(string);
                        },
                        Some(None) => {
                            assert(decoded[done.len() as int] is None);
                            return None;
                        },
                        Some(Some(c)) => {
                            string.push(c);
                            proof {
                                let step = Some(c);
                                assert(done + (seq![step] + decode_utf16(iter.remaining()))
                                    == done.push(step) + decode_utf16(iter.remaining()));
                                assert(done.push(step).map_values(|step: Option<char>| step->0)
                                    == done.map_values(|step: Option<char>| step->0).push(c));
                                done = done.push(step);
                            }
                        },
                    }
                }
            },
        }
    }

    /// Converts `self` to an owned `String`, replacing invalid data with the replacement
    /// character (U+FFFD).
    #[verifier::loop_isolation(false)]
    pub fn to_string_lossy(&self) -> (converted: String)
        ensures
            converted@ == self.chars_lossy(),
    {
        match self {
            NtHiveNameString::Latin1(bytes) => latin1_to_string(bytes),
            NtHiveNameString::Utf16LE(bytes) => {
                let mut string = String::new();
                let mut iter = CodeUnitIter::new(CodeUnitSource::Utf16LE(*bytes));
                let ghost decoded = decode_utf16(utf16le_units(bytes@));
                let ghost mut done: Seq<Option<char>> = Seq::empty();
                loop
                    invariant
                        decoded == decode_utf16(utf16le_units(bytes@)),
                        decoded == done + decode_utf16(iter.remaining()),
                        string@ == done.map_values(|step: Option<char>| or_replacement(step)),
                    decreases iter.remaining().len(),
                {
                    match iter.next_char() {
                        None => {
                            assert(decoded == done);
                            return string;
                        },
                        Some(step) => {
                            let c = match step {
                                Some(c) => c,
                                None => REPLACEMENT_CHARACTER,
                            };
                            string.push(c);
                            proof {
                                assert(done + (seq![step] + decode_utf16(iter.remaining()))
                                    == done.push(step) + decode_utf16(iter.remaining()));
                                assert(done.push(step).map_values(
                                    |step: Option<char>| or_replacement(step),
                                ) == done.map_values(
                                    |step: Option<char>| or_replacement(step),
                                ).push(c));
                                done = done.push(step);
                            }
                        },
                    }
                }
            },
        }
    }

    /// Compares two names case-insensitively
    /// (according to Windows' definition of case-insensitivity, which only considers the
    /// Unicode Basic Multilingual Plane).
    pub fn cmp(&self, other: &Self) -> (order: Ordering)
        ensures
            order == compare_units(self.units(), other.units()),
    {
        match (self, other) {
            (NtHiveNameString::Latin1(_), NtHiveNameString::Latin1(_)) => {
                Self::cmp_iter(self.latin1_iter(), other.latin1_iter())
            },
            (NtHiveNameString::Latin1(_), NtHiveNameString::Utf16LE(_)) => {
                Self::cmp_iter(self.latin1_iter(), other.utf16le_iter())
            },
            (NtHiveNameString::Utf16LE(_), NtHiveNameString::Latin1(_)) => {
                Self::cmp_iter(self.utf16le_iter(), other.latin1_iter())
            },
            (NtHiveNameString::Utf16LE(_), NtHiveNameString::Utf16LE(_)) => {
                Self::cmp_iter(self.utf16le_iter(), other.utf16le_iter())
            },
        }
    }
}

impl PartialEq for NtHiveNameString<'_> {
    /// Checks that two strings are a case-insensitive match
    /// (according to Windows' definition of case-insensitivity, which only considers the
    /// Unicode Basic Multilingual Plane).
    fn eq(&self, other: &Self) -> (equal: bool) {
        match NtHiveNameString::cmp(self, other) {
            Ordering::Equal => true,
            _ => false,
        }
    }
}

impl vstd::std_specs::cmp::PartialEqSpecImpl for NtHiveNameString<'_> {
    open spec fn obeys_eq_spec() -> bool {
        true
    }

    open spec fn eq_spec(&self, other: &Self) -> bool {
        compare_units(self.units(), other.units()) == Ordering::Equal
    }
}

impl Eq for NtHiveNameString<'_> {

}

impl PartialEq<str> for NtHiveNameString<'_> {
    fn eq(&self, other: &str) -> (equal: bool) {
        match NtHiveNameString::cmp_self_and_str(self, other) {
            Ordering::Equal => true,
            _ => false,
        }
    }
}

impl vstd::std_specs::cmp::PartialEqSpecImpl<str> for NtHiveNameString<'_> {
    open spec fn obeys_eq_spec() -> bool {
        true
    }

    open spec fn eq_spec(&self, other: &str) -> bool {
        compare_units(self.units(), encode_utf16(other@)) == Ordering::Equal
    }
}

impl<'h> PartialEq<NtHiveNameString<'h>> for str {
    fn eq(&self, other: &NtHiveNameString<'h>) -> (equal: bool) {
        match NtHiveNameString::cmp_str_and_self(self, other) {
            Ordering::Equal => true,
            _ => false,
        }
    }
}

impl<'h> vstd::std_specs::cmp::PartialEqSpecImpl<NtHiveNameString<'h>> for str {
    open spec fn obeys_eq_spec() -> bool {
        true
    }

    open spec fn eq_spec(&self, other: &NtHiveNameString<'h>) -> bool {
        compare_units(encode_utf16(self@), other.units()) == Ordering::Equal
    }
}

impl PartialEq<&str> for NtHiveNameString<'_> {
    fn eq(&self, other: &&str) -> (equal: bool) {
        match NtHiveNameString::cmp_self_and_str(self, *other) {
            Ordering::Equal => true,
            _ => false,
        }
    }
}

impl vstd::std_specs::cmp::PartialEqSpecImpl<&str> for NtHiveNameString<'_> {
    open spec fn obeys_eq_spec() -> bool {
        true
    }

    open spec fn eq_spec(&self, other: &&str) -> bool {
        compare_units(self.units(), encode_utf16(other@)) == Ordering::Equal
    }
}

impl<'h> PartialEq<NtHiveNameString<'h>> for &str {
    fn eq(&self, other: &NtHiveNameString<'h>) -> (equal: bool) {
        match NtHiveNameString::cmp_str_and_self(*self, other) {
            Ordering::Equal => true,
            _ => false,
        }
    }
}

impl<'h> vstd::std_specs::cmp::PartialEqSpecImpl<NtHiveNameString<'h>> for &str {
    open spec fn obeys_eq_spec() -> bool {
        true
    }

    open spec fn eq_spec(&self, other: &NtHiveNameString<'h>) -> bool {
        compare_units(encode_utf16(self@), other.units()) == Ordering::Equal
    }
}

impl PartialOrd for NtHiveNameString<'_> {
    fn partial_cmp(&self, other: &Self) -> (order: Option<Ordering>) {
        Some(NtHiveNameString::cmp(self, other))
    }
}

impl vstd::std_specs::cmp::PartialOrdSpecImpl for NtHiveNameString<'_> {
    open spec fn obeys_partial_cmp_spec() -> bool {
        true
    }

    open spec fn partial_cmp_spec(&self, other: &Self) -> Option<Ordering> {
        Some(compare_units(self.units(), other.units()))
    }
}

impl PartialOrd<str> for NtHiveNameString<'_> {
    fn partial_cmp(&self, other: &str) -> (order: Option<Ordering>) {
        Some(NtHiveNameString::cmp_self_and_str(self, other))
    }
}

impl vstd::std_specs::cmp::PartialOrdSpecImpl<str> for NtHiveNameString<'_> {
    open spec fn obeys_partial_cmp_spec() -> bool {
        true
    }

    open spec fn partial_cmp_spec(&self, other: &str) -> Option<Ordering> {
        Some(compare_units(self.units(), encode_utf16(other@)))
    }
}

impl<'h> PartialOrd<NtHiveNameString<'h>> for str {
    fn partial_cmp(&self, other: &NtHiveNameString<'h>) -> (order: Option<Ordering>) {
        Some(NtHiveNameString::cmp_str_and_self(self, other))
    }
}

impl<'h> vstd::std_specs::cmp::PartialOrdSpecImpl<NtHiveNameString<'h>> for str {
    open spec fn obeys_partial_cmp_spec() -> bool {
        true
    }

    open spec fn partial_cmp_spec(&self, other: &NtHiveNameString<'h>) -> Option<Ordering> {
        Some(compare_units(encode_utf16(self@), other.units()))
    }
}

impl PartialOrd<&str> for NtHiveNameString<'_> {
    fn partial_cmp(&self, other: &&str) -> (order: Option<Ordering>) {
        Some(NtHiveNameString::cmp_self_and_str(self, *other))
    }
}

impl vstd::std_specs::cmp::PartialOrdSpecImpl<&str> for NtHiveNameString<'_> {
    open spec fn obeys_partial_cmp_spec() -> bool {
        true
    }

    open spec fn partial_cmp_spec(&self, other: &&str) -> Option<Ordering> {
        Some(compare_units(self.units(), encode_utf16(other@)))
    }
}

impl<'h> PartialOrd<NtHiveNameString<'h>> for &str {
    fn partial_cmp(&self, other: &NtHiveNameString<'h>) -> (order: Option<Ordering>) {
        Some(NtHiveNameString::cmp_str_and_self(*self, other))
    }
}

impl<'h> vstd::std_specs::cmp::PartialOrdSpecImpl<NtHiveNameString<'h>> for &str {
    open spec fn obeys_partial_cmp_spec() -> bool {
        true
    }

    open spec fn partial_cmp_spec(&self, other: &NtHiveNameString<'h>) -> Option<Ordering> {
        Some(compare_units(encode_utf16(self@), other.units()))
    }
}

} // verus!
