//! Decides whether a text is short: whether it takes fewer than ten bytes
//! in UTF-8, the form in which a `String` holds it.

use vstd::prelude::*;
use vstd::utf8::is_ascii_chars;

pub mod measure;

verus! {

/// The number of bytes that a text must stay under to be accepted.
pub const LIMIT: usize = 10;

/// Whether a text is accepted: its UTF-8 form has fewer than [`LIMIT`] bytes.
pub open spec fn is_short(text: Seq<char>) -> bool {
    measure::byte_len(text) < LIMIT
}

/// Reports whether `x` takes fewer than ten bytes.
///
/// The length is counted in bytes of UTF-8, not in characters: a text of
/// ASCII characters has one byte for each, any other character counts two
/// to four. Every text gets an answer, and the text is only read.
pub fn validate_length(x: String) -> (accepted: bool)
    ensures
        accepted == is_short(x@),
{
    // The byte slice is the text's UTF-8 form, and its length fits in `usize`.
    let bytes = x.as_str().as_bytes();
    proof {
        measure::lemma_byte_len_is_encoded_len(x@);
    }
    bytes.len() < LIMIT
}

/// The limit is strict: a text of nine bytes or fewer is accepted, a text
/// of ten bytes or more is not. The empty text is accepted.
pub proof fn lemma_limit_is_strict(text: Seq<char>)
    ensures
        measure::byte_len(text) <= 9 ==> is_short(text),
        measure::byte_len(text) >= 10 ==> !is_short(text),
        is_short(Seq::<char>::empty()),
{
}

/// The verdict depends on the characters of the text and on nothing else:
/// two strings that hold the same text get the same verdict, whenever and
/// however often they are validated.
pub proof fn lemma_same_text_same_verdict(x: String, y: String)
    requires
        x@ == y@,
    ensures
        is_short(x@) == is_short(y@),
{
}

/// On ASCII text bytes and characters coincide: such a text is accepted
/// exactly when it has fewer than ten characters.
pub proof fn lemma_ascii_verdict(text: Seq<char>)
    requires
        is_ascii_chars(text),
    ensures
        is_short(text) == (text.len() < LIMIT),
{
    measure::lemma_byte_len_ascii(text);
}

/// What the number of characters alone decides: a text of ten characters
/// or more is never accepted, and a text of at most two characters always
/// is, whatever the characters are.
pub proof fn lemma_verdict_from_char_count(text: Seq<char>)
    ensures
        text.len() >= LIMIT ==> !is_short(text),
        text.len() <= 2 ==> is_short(text),
{
    measure::lemma_byte_len_bounds(text);
}

/// Every part of an accepted text is accepted: where two texts joined are
/// short, each of them is.
pub proof fn lemma_parts_of_short_text(head: Seq<char>, tail: Seq<char>)
    requires
        is_short(head + tail),
    ensures
        is_short(head),
        is_short(tail),
{
    measure::lemma_byte_len_concat(head, tail);
}

} // verus!
