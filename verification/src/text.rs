//! Text in value data: UTF-16LE strings that end at a NUL character or at the end of the data.
use crate::units::{
    decode_utf16, decode_utf16_lossy, utf16le_units, CodeUnitIter, REPLACEMENT_CHARACTER,
};
use core::ops::Range;
use vstd::prelude::*;

verus! {

/// The character that ends a string in value data.
pub const NUL: char = '\0';

/// The characters that a run of data bytes holds: the bytes are read as UTF-16LE,
/// with U+FFFD in place of every unpaired surrogate.
pub open spec fn segment_chars(bytes: Seq<u8>) -> Seq<char> {
    decode_utf16_lossy(utf16le_units(bytes))
}

/// The characters of the given ranges of a hive, each range decoded on its own,
/// one range after the other.
pub open spec fn chars_of_ranges(hive: Seq<u8>, ranges: Seq<Range<usize>>) -> Seq<char>
    decreases ranges.len(),
{
    if ranges.len() == 0 {
        Seq::empty()
    } else {
        segment_chars(hive.subrange(ranges[0].start as int, ranges[0].end as int))
            + chars_of_ranges(hive, ranges.skip(1))
    }
}

/// Whether a NUL character occurs in `chars`.
pub open spec fn has_nul(chars: Seq<char>) -> bool
    decreases chars.len(),
{
    if chars.len() == 0 {
        false
    } else {
        chars[0] == NUL || has_nul(chars.skip(1))
    }
}

/// The characters before the first NUL character; all of them if there is none.
pub open spec fn until_nul(chars: Seq<char>) -> Seq<char>
    decreases chars.len(),
{
    if chars.len() == 0 || chars[0] == NUL {
        Seq::empty()
    } else {
        seq![chars[0]] + until_nul(chars.skip(1))
    }
}

/// The characters after the first NUL character; none if there is no NUL character.
pub open spec fn after_nul(chars: Seq<char>) -> Seq<char>
    decreases chars.len(),
{
    if chars.len() == 0 {
        Seq::empty()
    } else if chars[0] == NUL {
        chars.skip(1)
    } else {
        after_nul(chars.skip(1))
    }
}

/// The characters from the first one that is not NUL.
pub open spec fn skip_nuls(chars: Seq<char>) -> Seq<char>
    decreases chars.len(),
{
    if chars.len() > 0 && chars[0] == NUL {
        skip_nuls(chars.skip(1))
    } else {
        chars
    }
}

/// A sequence without a NUL character is all before the first NUL character.
pub proof fn lemma_no_nul(chars: Seq<char>)
    requires
        !has_nul(chars),
    ensures
        until_nul(chars) == chars,
        after_nul(chars) == Seq::<char>::empty(),
    decreases chars.len(),
{
    if chars.len() > 0 {
        lemma_no_nul(chars.skip(1));
        assert(seq![chars[0]] + chars.skip(1) =~= chars);
    }
}

/// What comes before the first NUL character has no NUL character in it.
pub proof fn lemma_until_nul_has_no_nul(chars: Seq<char>)
    ensures
        !has_nul(until_nul(chars)),
        until_nul(chars).len() > 0 ==> chars.len() > 0 && chars[0] != NUL,
    decreases chars.len(),
{
    if chars.len() > 0 && chars[0] != NUL {
        lemma_until_nul_has_no_nul(chars.skip(1));
        let found = seq![chars[0]] + until_nul(chars.skip(1));
        assert(found.skip(1) =~= until_nul(chars.skip(1)));
    }
}

/// How the first NUL character of two sequences, one after the other, is found:
/// in the first sequence if it has one, else in the second.
pub proof fn lemma_nul_in_concat(first: Seq<char>, second: Seq<char>)
    ensures
        has_nul(first + second) == (has_nul(first) || has_nul(second)),
        has_nul(first) ==> until_nul(first + second) == until_nul(first) && after_nul(
            first + second,
        ) == after_nul(first) + second,
        !has_nul(first) ==> until_nul(first + second) == first + until_nul(second) && after_nul(
            first + second,
        ) == after_nul(second),
    decreases first.len(),
{
    let both = first + second;
    if first.len() == 0 {
        assert(both =~= second);
        assert(first + until_nul(second) =~= until_nul(second));
    } else {
        assert(both[0] == first[0]);
        assert(both.skip(1) =~= first.skip(1) + second);
        lemma_nul_in_concat(first.skip(1), second);
        if first[0] != NUL {
            if !has_nul(first) {
                assert(seq![first[0]] + (first.skip(1) + until_nul(second)) =~= first + until_nul(
                    second,
                ));
            }
        }
    }
}

/// Decodes characters off `iter` and appends them to `string`, up to the first
/// NUL character, which is taken off `iter` but not appended, or up to the end of `iter`.
/// Returns whether a NUL character was found.
pub fn push_until_nul(string: &mut String, iter: &mut CodeUnitIter<'_>) -> (found: bool)
    ensures
        found == has_nul(decode_utf16_lossy(old(iter).remaining())),
        final(string)@ == old(string)@ + until_nul(decode_utf16_lossy(old(iter).remaining())),
        decode_utf16_lossy(final(iter).remaining()) == after_nul(
            decode_utf16_lossy(old(iter).remaining()),
        ),
        !found ==> final(iter).remaining().len() == 0,
        final(iter).remaining().len() <= old(iter).remaining().len(),
        found ==> final(iter).remaining().len() < old(iter).remaining().len(),
{
    let ghost all = decode_utf16_lossy(iter.remaining());
    let ghost before = string@;
    let ghost mut pushed: Seq<char> = Seq::empty();
    let mut found = false;
    assert(before + pushed =~= before);
    assert(pushed + until_nul(all) =~= until_nul(all));
    loop
        invariant_except_break
            !found,
            string@ == before + pushed,
            until_nul(all) == pushed + until_nul(decode_utf16_lossy(iter.remaining())),
            has_nul(all) == has_nul(decode_utf16_lossy(iter.remaining())),
            after_nul(all) == after_nul(decode_utf16_lossy(iter.remaining())),
            iter.remaining().len() <= old(iter).remaining().len(),
        ensures
            found == has_nul(all),
            string@ == before + until_nul(all),
            decode_utf16_lossy(iter.remaining()) == after_nul(all),
            !found ==> iter.remaining().len() == 0,
            iter.remaining().len() <= old(iter).remaining().len(),
            found ==> iter.remaining().len() < old(iter).remaining().len(),
        decreases iter.remaining().len(),
    {
        let ghost current = decode_utf16_lossy(iter.remaining());
        match iter.next_char() {
            None => {
                assert(decode_utf16(iter.remaining()).len() == 0);
                assert(current.len() == 0);
                assert(pushed + until_nul(current) =~= pushed);
                break ;
            },
            Some(step) => {
                let c = match step {
                    Some(c) => c,
                    None => REPLACEMENT_CHARACTER,
                };
                let ghost rest = decode_utf16_lossy(iter.remaining());
                assert(current =~= seq![c] + rest);
                assert(current.skip(1) =~= rest);
                if c == NUL {
                    found = true;
                    assert(pushed + until_nul(current) =~= pushed);
                    break ;
                } else {
                    string.push(c);
                    proof {
                        assert(pushed + until_nul(current) =~= pushed.push(c) + until_nul(rest));
                        assert(before + pushed.push(c) =~= (before + pushed).push(c));
                        pushed = pushed.push(c);
                    }
                }
            },
        }
    }
    found
}

} // verus!
