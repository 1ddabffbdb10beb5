//! Decoding the text of a requested starting offset.
//!
//! An offset is written as a non-negative decimal integer: an optional `+`,
//! then one or more ASCII digits, and nothing else. A text that is not of
//! this form is refused, so that no invalid offset ever reaches the board.
//! A number too large for `usize` is no error: it lies past the end of every
//! log, and is decoded as the largest offset there is, which does too.

use crate::pagination::ListMessagesParams;
use vstd::prelude::*;

verus! {

/// Whether `byte` is an ASCII digit.
pub open spec fn spec_is_digit(byte: u8) -> bool {
    0x30 <= byte <= 0x39
}

/// How many bytes of `text` the sign takes: one if it starts with `+`.
pub open spec fn spec_sign_length(text: Seq<u8>) -> int {
    if text.len() > 0 && text[0] == 0x2b {
        1
    } else {
        0
    }
}

/// The number that the decimal digits `digits` write, most significant
/// digit first.
pub open spec fn spec_digits_value(digits: Seq<u8>) -> nat
    decreases digits.len(),
{
    if digits.len() == 0 {
        0
    } else {
        10 * spec_digits_value(digits.drop_last()) + (digits.last() - 0x30) as nat
    }
}

/// Whether `text` writes an offset: an optional `+`, then at least one
/// byte, all of them digits.
pub open spec fn spec_is_offset_text(text: Seq<u8>) -> bool {
    let digits = text.skip(spec_sign_length(text));
    digits.len() > 0 && forall|i: int| 0 <= i < digits.len() ==> spec_is_digit(#[trigger] digits[i])
}

/// The offset that `text` writes, if it writes one. A number above
/// `usize::MAX` stands for `usize::MAX`: both lie at or past the end of
/// every log.
pub open spec fn spec_parse_offset(text: Seq<u8>) -> Option<usize> {
    let value = spec_digits_value(text.skip(spec_sign_length(text)));
    if spec_is_offset_text(text) {
        if value <= usize::MAX {
            Some(value as usize)
        } else {
            Some(usize::MAX)
        }
    } else {
        None
    }
}

/// What a request with the given `first_message_id` asks for: the whole
/// log if the request names no offset, nothing if it names one that is not
/// a non-negative decimal integer.
pub open spec fn spec_decode_params(first_message_id: Option<Seq<u8>>) -> Option<
    ListMessagesParams,
> {
    match first_message_id {
        None => Some(ListMessagesParams { first_message_id: 0 }),
        Some(text) => match spec_parse_offset(text) {
            Some(offset) => Some(ListMessagesParams { first_message_id: offset }),
            None => None,
        },
    }
}

/// Decodes the text of an offset. Returns the offset if `text` is an
/// optional `+` followed by one or more ASCII digits, and `None` for every
/// other text. Digits whose value does not fit in `usize` give `usize::MAX`.
pub fn parse_offset(text: &[u8]) -> (offset: Option<usize>)
    ensures
        offset == spec_parse_offset(text@),
{
    let length = text.len();
    let start: usize = if length > 0 && text[0] == 0x2b {
        1
    } else {
        0
    };
    let ghost digits = text@.skip(start as int);
    if start == length {
        return None;
    }
    let mut value: usize = 0;
    let mut saturated = false;
    let mut i: usize = start;
    while i < length
        invariant
            start <= i <= length,
            length == text@.len(),
            start == spec_sign_length(text@),
            digits == text@.skip(start as int),
            forall|j: int| 0 <= j < i - start ==> spec_is_digit(#[trigger] digits[j]),
            !saturated ==> value == spec_digits_value(digits.subrange(0, i - start)),
            saturated ==> spec_digits_value(digits.subrange(0, i - start)) > usize::MAX,
        decreases length - i,
    {
        let byte = text[i];
        if byte < 0x30 || byte > 0x39 {
            assert(!spec_is_digit(digits[i - start]));
            return None;
        }
        let digit: usize = (byte - 0x30) as usize;
        assert(digits.subrange(0, i - start + 1).drop_last() =~= digits.subrange(0, i - start));
        assert(digits.subrange(0, i - start + 1).last() == byte);
        if !saturated {
            if value > (usize::MAX - digit) / 10 {
                saturated = true;
            } else {
                value = value * 10 + digit;
            }
        }
        i += 1;
    }
    assert(digits.subrange(0, i - start) =~= digits);
    if saturated {
        Some(usize::MAX)
    } else {
        Some(value)
    }
}

/// Decodes what a request to list messages asks for from the text it gives
/// for `first_message_id`, if it gives one. A request that names no offset
/// asks for the whole log; one whose offset is not a non-negative decimal
/// integer is refused.
pub fn decode_params(first_message_id: Option<&[u8]>) -> (params: Option<ListMessagesParams>)
    ensures
        params == spec_decode_params(
            match first_message_id {
                Some(text) => Some(text@),
                None => None,
            },
        ),
{
    match first_message_id {
        None => Some(ListMessagesParams { first_message_id: 0 }),
        Some(text) => match parse_offset(text) {
            Some(offset) => Some(ListMessagesParams { first_message_id: offset }),
            None => None,
        },
    }
}

} // verus!
