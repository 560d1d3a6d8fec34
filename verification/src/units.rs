//! UTF-16 code units: how name bytes and host strings are read as sequences of `u16`,
//! and how such sequences are turned back into characters.
use vstd::prelude::*;
use vstd::std_specs::iter::IteratorSpec;

verus! {

/// The character that stands in for undecodable UTF-16 input.
pub const REPLACEMENT_CHARACTER: char = '\u{FFFD}';

/// Latin-1 bytes as code units: every byte is the code unit of its character.
pub open spec fn latin1_units(bytes: Seq<u8>) -> Seq<u16> {
    Seq::new(bytes.len(), |i: int| bytes[i] as u16)
}

/// The code unit stored as the two bytes `low`, `high` in little-endian order.
pub open spec fn utf16le_unit(low: u8, high: u8) -> u16 {
    (low as int + 0x100 * (high as int)) as u16
}

/// UTF-16LE bytes as code units: each pair of bytes is one unit.
/// A single byte left over at the end belongs to no unit.
pub open spec fn utf16le_units(bytes: Seq<u8>) -> Seq<u16> {
    Seq::new((bytes.len() / 2) as nat, |i: int| utf16le_unit(bytes[2 * i], bytes[2 * i + 1]))
}

/// The one or two code units that encode `c` in UTF-16.
pub open spec fn char_units(c: char) -> Seq<u16> {
    let scalar = c as u32;
    if scalar < 0x1_0000 {
        seq![scalar as u16]
    } else {
        seq![
            (0xD800 + (scalar - 0x1_0000) / 0x400) as u16,
            (0xDC00 + (scalar - 0x1_0000) % 0x400) as u16,
        ]
    }
}

/// The UTF-16 encoding of a sequence of characters.
pub open spec fn encode_utf16(chars: Seq<char>) -> Seq<u16>
    decreases chars.len(),
{
    if chars.len() == 0 {
        Seq::empty()
    } else {
        encode_utf16(chars.drop_last()) + char_units(chars.last())
    }
}

/// Whether a code unit is one half of a surrogate pair.
pub open spec fn is_surrogate(unit: u16) -> bool {
    0xD800 <= unit <= 0xDFFF
}

/// Whether a code unit is the first half of a surrogate pair.
pub open spec fn is_high_surrogate(unit: u16) -> bool {
    0xD800 <= unit <= 0xDBFF
}

/// Whether a code unit is the second half of a surrogate pair.
pub open spec fn is_low_surrogate(unit: u16) -> bool {
    0xDC00 <= unit <= 0xDFFF
}

/// The character outside the Basic Multilingual Plane that a surrogate pair encodes.
pub open spec fn surrogate_pair_char(high: u16, low: u16) -> char {
    (0x1_0000 + (high - 0xD800) * 0x400 + (low - 0xDC00)) as char
}

/// Whether `units` begins with a high surrogate followed by a low surrogate.
pub open spec fn starts_with_pair(units: Seq<u16>) -> bool {
    units.len() >= 2 && is_high_surrogate(units[0]) && is_low_surrogate(units[1])
}

/// Decodes UTF-16 code units: one entry per character, or `None` for each
/// surrogate that is not part of a pair.
pub open spec fn decode_utf16(units: Seq<u16>) -> Seq<Option<char>>
    decreases units.len(),
{
    if units.len() == 0 {
        Seq::empty()
    } else if !is_surrogate(units[0]) {
        seq![Some(units[0] as char)] + decode_utf16(units.skip(1))
    } else if starts_with_pair(units) {
        seq![Some(surrogate_pair_char(units[0], units[1]))] + decode_utf16(units.skip(2))
    } else {
        seq![None] + decode_utf16(units.skip(1))
    }
}

/// The character that a decoding step stands for when errors are replaced.
pub open spec fn or_replacement(decoded: Option<char>) -> char {
    match decoded {
        Some(c) => c,
        None => REPLACEMENT_CHARACTER,
    }
}

/// Decodes UTF-16 code units, with U+FFFD in place of every unpaired surrogate.
pub open spec fn decode_utf16_lossy(units: Seq<u16>) -> Seq<char> {
    decode_utf16(units).map_values(|decoded: Option<char>| or_replacement(decoded))
}

/// Decodes UTF-16 code units, or `None` if any surrogate is unpaired.
pub open spec fn decode_utf16_checked(units: Seq<u16>) -> Option<Seq<char>> {
    if forall|i: int| 0 <= i < decode_utf16(units).len() ==> decode_utf16(units)[i] is Some {
        Some(decode_utf16(units).map_values(|decoded: Option<char>| decoded->0))
    } else {
        None
    }
}

/// Latin-1 bytes as characters: every byte is the code point of its character.
pub open spec fn latin1_chars(bytes: Seq<u8>) -> Seq<char> {
    Seq::new(bytes.len(), |i: int| bytes[i] as char)
}

/// `char::from_u32` returns the character with the given code point, and `None`
/// where the value is a surrogate or lies above U+10FFFF.
pub assume_specification[ char::from_u32 ](i: u32) -> (decoded: Option<char>)
    ensures
        (i <= 0xD7FF || 0xE000 <= i <= 0x10_FFFF) ==> decoded == Some(i as char),
        !(i <= 0xD7FF || 0xE000 <= i <= 0x10_FFFF) ==> decoded is None,
;

/// `String::push` appends one character to the end of the string.
pub assume_specification[ String::push ](string: &mut String, ch: char)
    ensures
        final(string)@ == old(string)@.push(ch),
;

/// Reads the code unit that two bytes hold in little-endian order.
pub fn u16_from_le_bytes(low: u8, high: u8) -> (unit: u16)
    ensures
        unit == utf16le_unit(low, high),
{
    low as u16 + 0x100 * (high as u16)
}

/// Encodes a host string as UTF-16.
pub fn str_units(s: &str) -> (units: Vec<u16>)
    ensures
        units@ == encode_utf16(s@),
{
    broadcast use vstd::string::group_string_axioms;

    let mut units: Vec<u16> = Vec::new();
    let mut chars = s.chars();
    let ghost mut seen: Seq<char> = Seq::empty();
    loop
        invariant
            chars.obeys_prophetic_iter_laws(),
            chars.decrease() is Some,
            seen + chars.remaining() == s@,
            units@ == encode_utf16(seen),
        ensures
            units@ == encode_utf16(s@),
        decreases chars.decrease()->0,
    {
        match chars.next() {
            Some(c) => {
                let scalar: u32 = c as u32;
                if scalar < 0x1_0000 {
                    units.push(scalar as u16);
                } else {
                    let offset: u32 = scalar - 0x1_0000;
                    units.push((0xD800 + offset / 0x400) as u16);
                    units.push((0xDC00 + offset % 0x400) as u16);
                }
                proof {
                    assert(seen.push(c).drop_last() == seen);
                    seen = seen.push(c);
                }
            },
            None => {
                assert(seen == s@);
                break ;
            },
        }
    }
    units
}

/// Where the code units of a [`CodeUnitIter`] come from.
#[derive(Clone, Copy, Debug)]
pub enum CodeUnitSource<'a> {
    /// Latin-1 bytes, one unit per byte.
    Latin1(&'a [u8]),
    /// UTF-16LE bytes, one unit per pair of bytes.
    Utf16LE(&'a [u8]),
    /// Code units in the host's byte order.
    Native(&'a [u16]),
}

impl<'a> CodeUnitSource<'a> {
    /// All code units of the source.
    pub open spec fn units(&self) -> Seq<u16> {
        match self {
            CodeUnitSource::Latin1(bytes) => latin1_units(bytes@),
            CodeUnitSource::Utf16LE(bytes) => utf16le_units(bytes@),
            CodeUnitSource::Native(units) => units@,
        }
    }

    /// The number of code units of the source.
    pub fn unit_count(&self) -> (count: usize)
        ensures
            count == self.units().len(),
    {
        match self {
            CodeUnitSource::Latin1(bytes) => bytes.len(),
            CodeUnitSource::Utf16LE(bytes) => bytes.len() / 2,
            CodeUnitSource::Native(units) => units.len(),
        }
    }

    /// The code unit at `index`.
    pub fn unit_at(&self, index: usize) -> (unit: u16)
        requires
            index < self.units().len(),
        ensures
            unit == self.units()[index as int],
    {
        match self {
            CodeUnitSource::Latin1(bytes) => bytes[index] as u16,
            CodeUnitSource::Utf16LE(bytes) => {
                assert(2 * index + 1 < bytes.len());
                u16_from_le_bytes(bytes[2 * index], bytes[2 * index + 1])
            },
            CodeUnitSource::Native(units) => units[index],
        }
    }
}

/// A cursor over the code units of a name or of an encoded host string.
/// It reads the underlying bytes in place and allocates nothing.
#[derive(Clone, Copy, Debug)]
pub struct CodeUnitIter<'a> {
    source: CodeUnitSource<'a>,
    position: usize,
}

impl<'a> CodeUnitIter<'a> {
    #[verifier::type_invariant]
    spec fn well_formed(&self) -> bool {
        self.position <= self.source.units().len()
    }

    /// The code units that the cursor has not handed out yet.
    pub closed spec fn remaining(&self) -> Seq<u16> {
        self.source.units().skip(self.position as int)
    }

    /// A cursor at the first code unit of `source`.
    pub fn new(source: CodeUnitSource<'a>) -> (iter: Self)
        ensures
            iter.remaining() == source.units(),
    {
        CodeUnitIter { source, position: 0 }
    }

    /// Hands out the next code unit, or `None` when all have been handed out.
    pub fn next(&mut self) -> (unit: Option<u16>)
        ensures
            old(self).remaining().len() == 0 ==> unit is None && final(self).remaining()
                == old(self).remaining(),
            old(self).remaining().len() > 0 ==> unit == Some(old(self).remaining()[0])
                && final(self).remaining() == old(self).remaining().skip(1),
    {
        proof {
            use_type_invariant(&*self);
        }
        if self.position < self.source.unit_count() {
            let unit = self.source.unit_at(self.position);
            self.position += 1;
            Some(unit)
        } else {
            None
        }
    }

    /// The next code unit, without moving over it.
    pub fn peek(&self) -> (unit: Option<u16>)
        ensures
            self.remaining().len() == 0 ==> unit is None,
            self.remaining().len() > 0 ==> unit == Some(self.remaining()[0]),
    {
        proof {
            use_type_invariant(self);
        }
        if self.position < self.source.unit_count() {
            Some(self.source.unit_at(self.position))
        } else {
            None
        }
    }

    /// Decodes the next character: `None` when no code unit is left,
    /// `Some(None)` for a surrogate that is not part of a pair.
    /// A surrogate pair takes two code units off the cursor, anything else one.
    pub fn next_char(&mut self) -> (decoded: Option<Option<char>>)
        ensures
            old(self).remaining().len() == 0 ==> decoded is None && final(self).remaining()
                == old(self).remaining(),
            old(self).remaining().len() > 0 ==> decoded is Some && decode_utf16(
                old(self).remaining(),
            ) == seq![decoded->0] + decode_utf16(final(self).remaining()),
            old(self).remaining().len() > 0 ==> final(self).remaining() == old(
                self,
            ).remaining().skip(if starts_with_pair(old(self).remaining()) { 2 } else { 1 }),
            final(self).remaining().len() <= old(self).remaining().len(),
            decoded is Some ==> final(self).remaining().len() < old(self).remaining().len(),
    {
        let ghost before = self.remaining();
        match self.next() {
            None => None,
            Some(unit) => {
                assert(before.len() > 0 && unit == before[0] && self.remaining() == before.skip(1));
                if unit < 0xD800 || unit > 0xDFFF {
                    Some(char::from_u32(unit as u32))
                } else if unit >= 0xDC00 {
                    assert(!starts_with_pair(before));
                    Some(None)
                } else {
                    match self.peek() {
                        Some(low) => {
                            assert(low == before[1]);
                            if 0xDC00 <= low && low <= 0xDFFF {
                                assert(starts_with_pair(before));
                                let _ = self.next();
                                assert(self.remaining() == before.skip(2)) by {
                                    assert(before.skip(1).skip(1) == before.skip(2));
                                }
                                let scalar: u32 = 0x1_0000 + (unit as u32 - 0xD800) * 0x400 + (
                                low as u32 - 0xDC00);
                                Some(char::from_u32(scalar))
                            } else {
                                assert(!starts_with_pair(before));
                                Some(None)
                            }
                        },
                        None => {
                            assert(!starts_with_pair(before));
                            Some(None)
                        },
                    }
                }
            },
        }
    }
}

} // verus!
