//! The safe rendering of text: which characters are shown as they are, and
//! what stands in for the others.

use vstd::prelude::*;
use vstd::utf8::decode_utf8;
use vstd::utf8::encode_utf8;
use vstd::utf8::encode_utf8_decode_utf8;
use vstd::utf8::encode_utf8_valid_utf8;
use vstd::utf8::is_ascii_chars;
use vstd::utf8::is_ascii_chars_encode_utf8;
use vstd::utf8::valid_utf8;

verus! {

/// The character that stands in for everything outside of the allow-set.
pub const PLACEHOLDER: char = '?';

/// The allow-set: ASCII letters, ASCII digits, `-` and `.`.
pub open spec fn is_allowed(c: char) -> bool {
    ||| 'a' <= c <= 'z'
    ||| 'A' <= c <= 'Z'
    ||| '0' <= c <= '9'
    ||| c == '-'
    ||| c == '.'
}

/// What a safe rendering may hold: the allow-set and the placeholder.
pub open spec fn is_displayable(c: char) -> bool {
    is_allowed(c) || c == PLACEHOLDER
}

/// A character as the safe rendering shows it.
pub open spec fn masked(c: char) -> char {
    if is_allowed(c) {
        c
    } else {
        PLACEHOLDER
    }
}

/// A text as the safe rendering shows it: character by character, in order.
pub open spec fn sanitized(text: Seq<char>) -> Seq<char> {
    Seq::new(text.len(), |i: int| masked(text[i]))
}

/// True when every byte is an ASCII code (below 128).
pub open spec fn is_ascii_bytes(bytes: Seq<u8>) -> bool {
    forall|i: int| 0 <= i < bytes.len() ==> #[trigger] bytes[i] < 128
}

/// True when every byte is the ASCII code of a character of the allow-set.
pub open spec fn is_allowed_bytes(bytes: Seq<u8>) -> bool {
    forall|i: int| 0 <= i < bytes.len() ==> is_allowed(#[trigger] bytes[i] as char)
}

/// The ASCII reading of bytes: each byte taken as the character with that code.
pub open spec fn ascii_text(bytes: Seq<u8>) -> Seq<char> {
    Seq::new(bytes.len(), |i: int| bytes[i] as char)
}

/// A safe rendering is as long as the text it shows and holds nothing but
/// characters of the allow-set and the placeholder.
pub proof fn lemma_sanitized_is_displayable(text: Seq<char>)
    ensures
        sanitized(text).len() == text.len(),
        forall|i: int| 0 <= i < sanitized(text).len() ==> is_displayable(#[trigger] sanitized(text)[i]),
{
}

/// The safe rendering leaves a text of allowed characters as it is.
pub proof fn lemma_sanitized_keeps_allowed(text: Seq<char>)
    requires
        forall|i: int| 0 <= i < text.len() ==> is_allowed(#[trigger] text[i]),
    ensures
        sanitized(text) == text,
{
}

/// Bytes that are all ASCII codes are well-formed UTF-8, and decode to their
/// ASCII reading.
pub proof fn lemma_ascii_bytes_decode(bytes: Seq<u8>)
    requires
        is_ascii_bytes(bytes),
    ensures
        valid_utf8(bytes),
        decode_utf8(bytes) == ascii_text(bytes),
{
    let chars = ascii_text(bytes);
    assert(is_ascii_chars(chars));
    is_ascii_chars_encode_utf8(chars);
    assert(encode_utf8(chars) =~= bytes);
    encode_utf8_valid_utf8(chars);
    encode_utf8_decode_utf8(chars);
}

/// Bytes of the allow-set are ASCII codes, and the safe rendering of their
/// ASCII reading is that reading itself.
pub proof fn lemma_allowed_bytes_render_verbatim(bytes: Seq<u8>)
    requires
        is_allowed_bytes(bytes),
    ensures
        is_ascii_bytes(bytes),
        sanitized(ascii_text(bytes)) == ascii_text(bytes),
{
    lemma_sanitized_keeps_allowed(ascii_text(bytes));
}

/// Shows one character as the safe rendering does: kept if it is in the
/// allow-set, replaced by the placeholder if not.
pub fn mask(c: char) -> (shown: char)
    ensures
        shown == masked(c),
{
    match c {
        'a'..='z' | 'A'..='Z' | '0'..='9' | '-' | '.' => c,
        _ => PLACEHOLDER,
    }
}

/// Renders a text safely: one character out for each character in, in order.
pub fn sanitize(text: &str) -> (shown: String)
    ensures
        shown@ == sanitized(text@),
{
    let mut shown = String::new();
    for c in it: text.chars()
        invariant
            it.seq() == text@,
            shown@ == sanitized(text@.take(it.index())),
    {
        shown.push(mask(c));
    }
    shown
}

} // verus!
