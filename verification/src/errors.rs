//! The one way in which making a peer ID can fail.

use crate::decimal::decimal;
use crate::decimal::push_decimal;
use vstd::prelude::*;
use vstd::string::StringExecFns;

verus! {

/// What the message says before the length.
pub const MESSAGE_HEAD: &'static str = "Invalid Peer Id length, expected a 20 bytes long slice, got ";

/// What the message says after the length.
pub const MESSAGE_TAIL: &'static str = " bytes";

/// Returned when a byte slice offered as a peer ID is not 20 bytes long.
/// Holds the length of the offending slice.
#[derive(Debug, Clone, Copy, PartialEq, Eq, Structural)]
pub struct BadPeerIdLengthError(
    /// the length of the problematic byte slice
    pub usize,
);

/// True when `part` stands in `whole`, beginning at position `at`.
pub open spec fn occurs_at(part: Seq<char>, whole: Seq<char>, at: int) -> bool {
    &&& 0 <= at
    &&& at + part.len() <= whole.len()
    &&& whole.subrange(at, at + part.len()) == part
}

/// True when `part` stands somewhere in `whole`.
pub open spec fn occurs_in(part: Seq<char>, whole: Seq<char>) -> bool {
    exists|at: int| occurs_at(part, whole, at)
}

impl BadPeerIdLengthError {
    /// True of every error that a conversion returns: the length it holds is
    /// not the length of a peer ID.
    pub open spec fn is_mismatch(self) -> bool {
        self.0 != 20
    }

    /// The message of this error: that 20 bytes were expected, and the length
    /// that was met instead, in decimal notation.
    pub open spec fn message(self) -> Seq<char> {
        MESSAGE_HEAD@ + decimal(self.0 as nat) + MESSAGE_TAIL@
    }

    /// The message of this error as text. It holds the rejected length in
    /// decimal notation.
    pub fn to_string(&self) -> (text: String)
        ensures
            text@ == self.message(),
            occurs_in(decimal(self.0 as nat), text@),
    {
        let mut text = MESSAGE_HEAD.to_owned();
        push_decimal(&mut text, self.0);
        text.append(MESSAGE_TAIL);
        proof {
            let number = decimal(self.0 as nat);
            let at = MESSAGE_HEAD@.len() as int;
            assert(text@.subrange(at, at + number.len()) =~= number);
            assert(occurs_at(number, text@, at));
        }
        text
    }
}

} // verus!
