//! What this crate takes on trust from the standard library's `String`.
//!
//! Nothing in this file is proved. Each item states, for one function of
//! `String`, what its documentation promises; the proofs in the other modules
//! rest on these statements.

use std::borrow::Cow;
use vstd::prelude::*;
use vstd::utf8::decode_utf8;
use vstd::utf8::valid_utf8;

verus! {

/// The characters that `String::from_utf8_lossy` produces for `bytes`.
///
/// Lossy decoding reads `bytes` as UTF-8 and puts U+FFFD in place of every
/// ill-formed sequence. How the ill-formed parts are cut into sequences is not
/// spelled out here, so on input that is not UTF-8 this value has a name only:
/// it is a function of the bytes, and on well-formed input it is their
/// decoding (see the specification of the call below).
pub uninterp spec fn utf8_lossy(bytes: Seq<u8>) -> Seq<char>;

/// `String::from_utf8_lossy` never fails and depends on its argument alone:
/// it returns the text named [`utf8_lossy`]. On well-formed UTF-8 nothing is
/// replaced, so the result is the decoding of the bytes.
pub assume_specification<'a>[ String::from_utf8_lossy ](v: &'a [u8]) -> (text: Cow<'a, str>)
    ensures
        text@ == utf8_lossy(v@),
        valid_utf8(v@) ==> text@ == decode_utf8(v@),
;

/// `String::push` appends one character to the end of the string and leaves
/// what was there untouched.
pub assume_specification[ String::push ](s: &mut String, ch: char)
    ensures
        final(s)@ == old(s)@.push(ch),
;

} // verus!
