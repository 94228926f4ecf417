//! Checks on the strings that players and creators supply.

use vstd::prelude::*;
use vstd::utf8::encode_utf8;
use crate::error::GameError;

verus! {

/// Whether `c` is white space: one of the characters that Unicode classes as
/// `White_Space`.
pub open spec fn is_white_space(c: char) -> bool {
    let code = c as u32;
    ||| 0x09 <= code <= 0x0D
    ||| code == 0x20
    ||| code == 0x85
    ||| code == 0xA0
    ||| code == 0x1680
    ||| 0x2000 <= code <= 0x200A
    ||| code == 0x2028
    ||| code == 0x2029
    ||| code == 0x202F
    ||| code == 0x205F
    ||| code == 0x3000
}

/// Whether a text holds nothing but white space. The empty text is blank.
pub open spec fn is_blank(text: Seq<char>) -> bool {
    forall|i: int| 0 <= i < text.len() ==> is_white_space(#[trigger] text[i])
}

/// Whether `c` is white space.
pub fn char_is_white_space(c: char) -> (r: bool)
    ensures
        r == is_white_space(c),
{
    let code: u32 = c as u32;
    (0x09 <= code && code <= 0x0D) || code == 0x20 || code == 0x85 || code == 0xA0 || code
        == 0x1680 || (0x2000 <= code && code <= 0x200A) || code == 0x2028 || code == 0x2029
        || code == 0x202F || code == 0x205F || code == 0x3000
}

/// Accepts a string that holds at least one character that is not white
/// space, and rejects any other with `EmptyString`.
pub fn validate_non_empty_string(s: &str) -> (r: Result<(), GameError>)
    ensures
        r == if is_blank(s@) {
            Err::<(), GameError>(GameError::EmptyString)
        } else {
            Ok::<(), GameError>(())
        },
{
    for c in it: s.chars()
        invariant
            it.seq() == s@,
            forall|j: int| 0 <= j < it.index() ==> is_white_space(#[trigger] s@[j]),
    {
        if !char_is_white_space(c) {
            return Ok(());
        }
    }
    Err(GameError::EmptyString)
}

/// The length of a text in bytes of UTF-8, as the machine counts it.
pub open spec fn byte_len(text: Seq<char>) -> usize {
    encode_utf8(text).len() as usize
}

/// Accepts a string of at most `max_len` bytes in UTF-8, and rejects a longer
/// one with `StringTooLong`. The length counts bytes, not characters.
pub fn validate_string_length(s: &str, max_len: usize) -> (r: Result<(), GameError>)
    ensures
        r == if byte_len(s@) <= max_len {
            Ok::<(), GameError>(())
        } else {
            Err::<(), GameError>(GameError::StringTooLong)
        },
{
    if s.len() <= max_len {
        Ok(())
    } else {
        Err(GameError::StringTooLong)
    }
}

} // verus!
