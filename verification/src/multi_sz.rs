//! The strings of a `REG_MULTI_SZ` Key Value.
use crate::big_data::BigDataSlices;
use crate::error::NtHiveError;
use crate::text::{
    after_nul, chars_of_ranges, has_nul, lemma_no_nul, lemma_nul_in_concat,
    lemma_until_nul_has_no_nul, push_until_nul, segment_chars, skip_nuls, until_nul, NUL,
};
use crate::units::{decode_utf16_lossy, CodeUnitIter, CodeUnitSource};
use vstd::prelude::*;

verus! {

/// The next string of a stream of characters which may end early in a fault.
///
/// NUL characters before the string are passed over. The string then ends before the
/// next NUL character, or with the stream if it holds no further NUL character and does not end
/// in a fault. Where the stream ends in a fault before the string has ended, the fault
/// is the item. Where nothing but NUL characters is left, there is no item.
pub open spec fn next_string(chars: Seq<char>, error: Option<NtHiveError>) -> Option<
    Result<Seq<char>, NtHiveError>,
> {
    let rest = skip_nuls(chars);
    if has_nul(rest) {
        Some(Ok(until_nul(rest)))
    } else if error is Some {
        Some(Err(error->0))
    } else if rest.len() > 0 {
        Some(Ok(rest))
    } else {
        None
    }
}

/// The characters that are left once the next string has been taken off a stream:
/// those after the NUL character that ended the string, and none if no NUL character ended it.
pub open spec fn chars_after_string(chars: Seq<char>) -> Seq<char> {
    if has_nul(skip_nuls(chars)) {
        after_nul(skip_nuls(chars))
    } else {
        Seq::empty()
    }
}

/// The fault that a stream still ends in once the next string has been taken off:
/// the same as before if a NUL character ended the string, and none otherwise.
pub open spec fn error_after_string(chars: Seq<char>, error: Option<NtHiveError>) -> Option<
    NtHiveError,
> {
    if has_nul(skip_nuls(chars)) {
        error
    } else {
        None
    }
}

/// Once there is no item, there is none ever after.
pub proof fn law_no_string_after_none(chars: Seq<char>, error: Option<NtHiveError>)
    requires
        next_string(chars, error) is None,
    ensures
        next_string(chars_after_string(chars), error_after_string(chars, error)) is None,
{
}

/// What is left after leading NUL characters does not begin with one.
pub proof fn lemma_skip_nuls_result(chars: Seq<char>)
    ensures
        skip_nuls(chars).len() > 0 ==> skip_nuls(chars)[0] != NUL,
        skip_nuls(skip_nuls(chars)) == skip_nuls(chars),
    decreases chars.len(),
{
    if chars.len() > 0 && chars[0] == NUL {
        lemma_skip_nuls_result(chars.skip(1));
    }
}

/// The characters that a cursor within a segment and the segments after it still hold.
pub open spec fn pending_of(
    char_iter: Option<CodeUnitIter<'_>>,
    big_iter: Option<BigDataSlices<'_>>,
) -> Seq<char> {
    (match char_iter {
        Some(iter) => decode_utf16_lossy(iter.remaining()),
        None => Seq::empty(),
    }) + (match big_iter {
        Some(iter) => chars_of_ranges(iter.hive(), iter.segments().0),
        None => Seq::empty(),
    })
}

/// The fault that the segments end in, if any.
pub open spec fn error_of(big_iter: Option<BigDataSlices<'_>>) -> Option<NtHiveError> {
    match big_iter {
        Some(iter) => iter.segments().1,
        None => None,
    }
}

/// Iterator over the strings of a `REG_MULTI_SZ` Key Value:
/// each call of [`next`](RegMultiSZStrings::next) decodes one string.
#[derive(Clone, Copy, Debug)]
pub struct RegMultiSZStrings<'h> {
    char_iter: Option<CodeUnitIter<'h>>,
    big_iter: Option<BigDataSlices<'h>>,
}

impl<'h> RegMultiSZStrings<'h> {
    /// The characters of the data that no string has been made of yet.
    pub closed spec fn pending_chars(&self) -> Seq<char> {
        pending_of(self.char_iter, self.big_iter)
    }

    /// The fault that the data ends in after the pending characters, if any.
    pub closed spec fn pending_error(&self) -> Option<NtHiveError> {
        error_of(self.big_iter)
    }

    /// An iterator over the strings of data in a single range.
    pub fn small(data: &'h [u8]) -> (strings: Self)
        ensures
            strings.pending_chars() == segment_chars(data@),
            strings.pending_error() is None,
    {
        let strings = RegMultiSZStrings {
            char_iter: Some(CodeUnitIter::new(CodeUnitSource::Utf16LE(data))),
            big_iter: None,
        };
        assert(segment_chars(data@) + Seq::<char>::empty() =~= segment_chars(data@));
        strings
    }

    /// An iterator over the strings of Big Data, which may run over several segments.
    pub fn big(iter: BigDataSlices<'h>) -> (strings: Self)
        ensures
            strings.pending_chars() == chars_of_ranges(iter.hive(), iter.segments().0),
            strings.pending_error() == iter.segments().1,
    {
        let strings = RegMultiSZStrings { char_iter: None, big_iter: Some(iter) };
        assert(Seq::<char>::empty() + chars_of_ranges(iter.hive(), iter.segments().0)
            =~= chars_of_ranges(iter.hive(), iter.segments().0));
        strings
    }

    /// Decodes the next string.
    ///
    /// REG_MULTI_SZ data consists of multiple strings each terminated by a NUL character,
    /// and the final string has a double-NUL termination. Data without terminating NUL
    /// characters is accepted as well, and so are further NUL characters between strings.
    pub fn next(&mut self) -> (item: Option<Result<String, NtHiveError>>)
        ensures
            match next_string(old(self).pending_chars(), old(self).pending_error()) {
                Some(Ok(chars)) => item matches Some(Ok(string)) && string@ == chars,
                Some(Err(e)) => item matches Some(Err(actual)) && actual == e,
                None => item is None,
            },
            final(self).pending_chars() == chars_after_string(old(self).pending_chars()),
            final(self).pending_error() == error_after_string(
                old(self).pending_chars(),
                old(self).pending_error(),
            ),
    {
        let mut string = String::new();
        let mut char_iter = self.char_iter;
        let mut big_iter = self.big_iter;
        let mut failure: Option<NtHiveError> = None;
        let ghost chars = self.pending_chars();
        let ghost error = self.pending_error();
        loop
            invariant_except_break
                failure is None,
                !has_nul(string@),
                error_of(big_iter) == error,
                skip_nuls(chars) == (if string@.len() == 0 {
                    skip_nuls(pending_of(char_iter, big_iter))
                } else {
                    string@ + pending_of(char_iter, big_iter)
                }),
            ensures
                match next_string(chars, error) {
                    Some(Ok(found)) => failure is None && string@ == found && string@.len() > 0,
                    Some(Err(e)) => failure == Some(e),
                    None => failure is None && string@.len() == 0,
                },
                pending_of(char_iter, big_iter) == chars_after_string(chars),
                error_of(big_iter) == error_after_string(chars, error),
            decreases
                    (match big_iter {
                        Some(iter) => iter.bytes_left(),
                        None => 0,
                    }),
                    (match char_iter {
                        Some(iter) => iter.remaining().len() + 1,
                        None => 0,
                    }),
        {
            let ghost pending = pending_of(char_iter, big_iter);
            let ghost collected = string@;
            proof {
                lemma_skip_nuls_result(chars);
                lemma_skip_nuls_result(pending);
            }
            match char_iter {
                None => {
                    // All characters of this segment are used up, so get the next one.
                    let fetched = match big_iter {
                        None => None,
                        Some(segments) => {
                            let mut segments = segments;
                            let fetched = segments.next();
                            big_iter = Some(segments);
                            fetched
                        },
                    };
                    match fetched {
                        Some(Ok(slice_data)) => {
                            char_iter = Some(
                                CodeUnitIter::new(CodeUnitSource::Utf16LE(slice_data)),
                            );
                            assert(pending_of(char_iter, big_iter) =~= pending);
                        },
                        Some(Err(e)) => {
                            failure = Some(e);
                            assert(pending =~= Seq::<char>::empty());
                            assert(pending_of(char_iter, big_iter) =~= Seq::<char>::empty());
                            assert(collected + pending =~= collected);
                            break ;
                        },
                        None => {
                            assert(pending =~= Seq::<char>::empty());
                            assert(pending_of(char_iter, big_iter) =~= Seq::<char>::empty());
                            assert(collected + pending =~= collected);
                            break ;
                        },
                    }
                },
                Some(iter) => {
                    let mut iter = iter;
                    let ghost current = decode_utf16_lossy(iter.remaining());
                    let ghost later = pending.skip(current.len() as int);
                    let found = push_until_nul(&mut string, &mut iter);
                    proof {
                        assert(pending =~= current + later);
                        lemma_nul_in_concat(current, later);
                        lemma_nul_in_concat(collected, until_nul(current));
                        lemma_until_nul_has_no_nul(current);
                        lemma_nul_in_concat(collected, pending);
                    }
                    if found {
                        char_iter = Some(iter);
                        assert(pending_of(char_iter, big_iter) =~= after_nul(current) + later);
                        if string.as_str().is_empty() {
                            // A NUL character before the string has begun.
                            assert(current[0] == NUL);
                            assert(pending.skip(1) =~= after_nul(current) + later);
                        } else {
                            // The NUL character that ends the string.
                            assert(skip_nuls(chars) == collected + pending) by {
                                if collected.len() == 0 {
                                    assert(pending[0] == current[0]);
                                    assert(collected + pending =~= pending);
                                }
                            }
                            assert(collected + until_nul(pending) =~= string@);
                            break ;
                        }
                    } else {
                        char_iter = None;
                        proof {
                            lemma_no_nul(current);
                            assert(pending_of(char_iter, big_iter) =~= later);
                            assert(string@ =~= collected + current);
                            assert(string@ + later =~= collected + pending);
                            if collected.len() == 0 && current.len() > 0 {
                                assert(pending[0] == current[0]);
                                assert(collected + pending =~= pending);
                            }
                            if collected.len() == 0 && current.len() == 0 {
                                assert(pending =~= later);
                            }
                        }
                    }
                },
            }
        }
        self.char_iter = char_iter;
        self.big_iter = big_iter;
        match failure {
            Some(e) => Some(Err(e)),
            None => if string.as_str().is_empty() {
                None
            } else {
                Some(Ok(string))
            },
        }
    }
}

} // verus!
