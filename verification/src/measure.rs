//! The length of a text in bytes of UTF-8, as a function of its characters.

use vstd::prelude::*;
use vstd::utf8::*;

verus! {

/// Number of bytes that one character takes in UTF-8: one for ASCII, up to
/// four for the highest code points.
pub open spec fn char_width(c: char) -> nat {
    let v: u32 = c as u32;
    if v < 0x80 {
        1
    } else if v < 0x800 {
        2
    } else if v < 0x1_0000 {
        3
    } else {
        4
    }
}

/// Number of bytes that a text takes in UTF-8: the sum of its characters'
/// widths.
pub open spec fn byte_len(text: Seq<char>) -> nat
    decreases text.len(),
{
    if text.len() == 0 {
        0
    } else {
        char_width(text[0]) + byte_len(text.drop_first())
    }
}

/// The width of a character is the length of its UTF-8 encoding.
pub proof fn lemma_char_width_is_encoded_len(c: char)
    ensures
        encode_scalar(c as u32).len() == char_width(c),
{
    char_is_scalar(c);
}

/// The byte length of a text is the length of its UTF-8 encoding.
pub proof fn lemma_byte_len_is_encoded_len(text: Seq<char>)
    ensures
        encode_utf8(text).len() == byte_len(text),
    decreases text.len(),
{
    if text.len() > 0 {
        lemma_char_width_is_encoded_len(text[0]);
        lemma_byte_len_is_encoded_len(text.drop_first());
    }
}

/// Every character takes at least one byte and at most four, so the byte
/// length of a text lies between its number of characters and four times
/// that number.
pub proof fn lemma_byte_len_bounds(text: Seq<char>)
    ensures
        text.len() <= byte_len(text) <= 4 * text.len(),
    decreases text.len(),
{
    if text.len() > 0 {
        lemma_byte_len_bounds(text.drop_first());
    }
}

/// A character takes a single byte exactly when it is ASCII.
pub proof fn lemma_char_width_ascii(c: char)
    ensures
        char_width(c) == 1 <==> '\0' <= c <= '\u{7f}',
{
}

/// Bytes and characters count the same exactly on ASCII text.
pub proof fn lemma_byte_len_ascii(text: Seq<char>)
    ensures
        byte_len(text) == text.len() <==> is_ascii_chars(text),
    decreases text.len(),
{
    if text.len() > 0 {
        let rest = text.drop_first();
        lemma_byte_len_ascii(rest);
        lemma_byte_len_bounds(rest);
        lemma_char_width_ascii(text[0]);
        if is_ascii_chars(text) {
            assert forall|i: int| 0 <= i < rest.len() implies '\0' <= #[trigger] rest[i]
                <= '\u{7f}' by {
                assert(rest[i] == text[i + 1]);
            }
        }
        if byte_len(text) == text.len() {
            assert forall|i: int| 0 <= i < text.len() implies '\0' <= #[trigger] text[i]
                <= '\u{7f}' by {
                if i > 0 {
                    assert(text[i] == rest[i - 1]);
                }
            }
        }
    }
}

/// The byte length of two texts joined is the sum of their byte lengths.
pub proof fn lemma_byte_len_concat(head: Seq<char>, tail: Seq<char>)
    ensures
        byte_len(head + tail) == byte_len(head) + byte_len(tail),
    decreases head.len(),
{
    if head.len() == 0 {
        assert(head + tail =~= tail);
    } else {
        assert((head + tail).drop_first() =~= head.drop_first() + tail);
        lemma_byte_len_concat(head.drop_first(), tail);
    }
}

} // verus!
