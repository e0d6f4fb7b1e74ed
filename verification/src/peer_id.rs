//! The peer ID itself: how it is made, read, compared and shown.

use crate::errors::BadPeerIdLengthError;
use crate::render::ascii_text;
use crate::render::is_allowed_bytes;
use crate::render::is_ascii_bytes;
use crate::render::is_displayable;
use crate::render::lemma_allowed_bytes_render_verbatim;
use crate::render::lemma_ascii_bytes_decode;
use crate::render::sanitize;
use crate::render::sanitized;
use crate::text::utf8_lossy;
use std::borrow::Cow;
use vstd::prelude::*;
use vstd::std_specs::cmp::PartialEqSpecImpl;
use vstd::std_specs::convert::FromSpec;
use vstd::std_specs::convert::FromSpecImpl;
use vstd::std_specs::convert::TryFromSpec;
use vstd::std_specs::convert::TryFromSpecImpl;
use vstd::utf8::decode_utf8;
use vstd::utf8::valid_utf8;

verus! {

/// An unparsed peer ID: exactly 20 bytes, each of any value.
#[derive(Debug, Clone, Copy, Eq)]
pub struct PeerId(pub [u8; 20]);

impl View for PeerId {
    type V = Seq<u8>;

    /// A peer ID is its 20 bytes, in order.
    open spec fn view(&self) -> Seq<u8> {
        self.0@
    }
}

impl PeerId {
    /// The peer ID made of the first 20 bytes of `bytes`.
    pub open spec fn of_bytes(bytes: Seq<u8>) -> PeerId
        recommends
            bytes.len() == 20,
    {
        PeerId(
            [
                bytes[0],
                bytes[1],
                bytes[2],
                bytes[3],
                bytes[4],
                bytes[5],
                bytes[6],
                bytes[7],
                bytes[8],
                bytes[9],
                bytes[10],
                bytes[11],
                bytes[12],
                bytes[13],
                bytes[14],
                bytes[15],
                bytes[16],
                bytes[17],
                bytes[18],
                bytes[19],
            ],
        )
    }

    /// The safe rendering of this peer ID: its bytes decoded lossily as UTF-8,
    /// then every character outside of the allow-set replaced.
    pub open spec fn safe_text(self) -> Seq<char> {
        sanitized(utf8_lossy(self@))
    }

    /// Renders the peer ID with every character outside of `0-9`, `a-z`,
    /// `A-Z`, `-` and `.` replaced by `?`. Most clients use only those
    /// characters in the readable part of their peer IDs, so this shows what
    /// matters and is safe in any environment without escaping.
    ///
    /// The bytes are first decoded lossily as UTF-8, so the rendering has one
    /// character for each decoded character: 20 where all bytes are ASCII,
    /// and otherwise not always 20.
    pub fn to_safe(&self) -> (text: Cow<'_, str>)
        ensures
            text@ == self.safe_text(),
            text@.len() == utf8_lossy(self@).len(),
            forall|i: int| 0 <= i < text@.len() ==> is_displayable(#[trigger] text@[i]),
            valid_utf8(self@) ==> text@ == sanitized(decode_utf8(self@)),
            is_ascii_bytes(self@) ==> text@ == sanitized(ascii_text(self@)),
            is_allowed_bytes(self@) ==> text@ == ascii_text(self@),
    {
        let decoded = String::from_utf8_lossy(&self.0);
        let shown = match &decoded {
            Cow::Borrowed(text) => sanitize(text),
            Cow::Owned(text) => sanitize(text.as_str()),
        };
        proof {
            if is_allowed_bytes(self@) {
                lemma_allowed_bytes_render_verbatim(self@);
            }
            if is_ascii_bytes(self@) {
                lemma_ascii_bytes_decode(self@);
            }
        }
        Cow::Owned(shown)
    }

    /// The peer ID as text. This is the safe rendering, the same as
    /// [`PeerId::to_safe`] gives.
    pub fn to_string(&self) -> (text: String)
        ensures
            text@ == self.safe_text(),
            text@.len() == utf8_lossy(self@).len(),
            forall|i: int| 0 <= i < text@.len() ==> is_displayable(#[trigger] text@[i]),
            valid_utf8(self@) ==> text@ == sanitized(decode_utf8(self@)),
            is_ascii_bytes(self@) ==> text@ == sanitized(ascii_text(self@)),
            is_allowed_bytes(self@) ==> text@ == ascii_text(self@),
    {
        match self.to_safe() {
            Cow::Borrowed(text) => text.to_owned(),
            Cow::Owned(text) => text,
        }
    }
}

impl From<[u8; 20]> for PeerId {
    /// Wraps 20 bytes as they are.
    fn from(value: [u8; 20]) -> (id: Self)
        ensures
            id.0 == value,
            id@ == value@,
    {
        Self(value)
    }
}

impl FromSpecImpl<[u8; 20]> for PeerId {
    open spec fn obeys_from_spec() -> bool {
        true
    }

    open spec fn from_spec(value: [u8; 20]) -> Self {
        PeerId(value)
    }
}

impl<'a> From<&'a [u8; 20]> for PeerId {
    /// Copies 20 borrowed bytes.
    fn from(value: &'a [u8; 20]) -> (id: Self)
        ensures
            id.0 == *value,
            id@ == value@,
    {
        Self(*value)
    }
}

impl<'a> FromSpecImpl<&'a [u8; 20]> for PeerId {
    open spec fn obeys_from_spec() -> bool {
        true
    }

    open spec fn from_spec(value: &'a [u8; 20]) -> Self {
        PeerId(*value)
    }
}

impl AsRef<[u8; 20]> for PeerId {
    /// Lends the 20 bytes.
    fn as_ref(&self) -> (bytes: &[u8; 20])
        ensures
            *bytes == self.0,
            bytes@ == self@,
    {
        &self.0
    }
}

impl<'a> TryFrom<&'a [u8]> for PeerId {
    type Error = BadPeerIdLengthError;

    /// Makes a peer ID of a slice that is 20 bytes long, and reports the
    /// length of any other.
    fn try_from(value: &'a [u8]) -> (made: Result<Self, Self::Error>)
        ensures
            made is Ok <==> value@.len() == 20,
            made matches Ok(id) ==> id@ == value@,
            made matches Err(e) ==> e == BadPeerIdLengthError(value.len()) && e.is_mismatch(),
    {
        if value.len() != 20 {
            return Err(BadPeerIdLengthError(value.len()));
        }
        let mut bytes = [0u8; 20];
        let mut i: usize = 0;
        while i < 20
            invariant
                i <= 20,
                value@.len() == 20,
                forall|j: int| 0 <= j < i ==> bytes[j] == value[j],
            decreases 20 - i,
        {
            bytes[i] = value[i];
            i += 1;
        }
        assert(bytes =~= PeerId::of_bytes(value@).0);
        Ok(PeerId(bytes))
    }
}

impl<'a> TryFromSpecImpl<&'a [u8]> for PeerId {
    open spec fn obeys_try_from_spec() -> bool {
        true
    }

    open spec fn try_from_spec(value: &'a [u8]) -> Result<Self, Self::Error> {
        if value@.len() == 20 {
            Ok(PeerId::of_bytes(value@))
        } else {
            Err(BadPeerIdLengthError(value.len()))
        }
    }
}

impl PartialEq for PeerId {
    /// Two peer IDs are equal when they hold the same bytes.
    fn eq(&self, other: &Self) -> (same: bool) {
        let mut i: usize = 0;
        while i < 20
            invariant
                i <= 20,
                forall|j: int| 0 <= j < i ==> self.0[j] == other.0[j],
            decreases 20 - i,
        {
            if self.0[i] != other.0[i] {
                return false;
            }
            i += 1;
        }
        assert(self.0 =~= other.0);
        true
    }
}

impl PartialEqSpecImpl for PeerId {
    open spec fn obeys_eq_spec() -> bool {
        true
    }

    open spec fn eq_spec(&self, other: &Self) -> bool {
        *self == *other
    }
}

/// A peer ID holds 20 bytes, and two peer IDs are the same exactly when their
/// bytes are.
pub proof fn lemma_identity_is_bytewise(a: PeerId, b: PeerId)
    ensures
        a@.len() == 20,
        a == b <==> a@ == b@,
{
    if a@ == b@ {
        assert(a.0 =~= b.0);
    }
}

/// A peer ID made of 20 bytes holds those bytes: reading them back yields
/// what went in.
pub proof fn lemma_bytes_round_trip(bytes: [u8; 20])
    ensures
        <PeerId as FromSpec<[u8; 20]>>::from_spec(bytes).0 == bytes,
        <PeerId as FromSpec<[u8; 20]>>::from_spec(bytes)@ == bytes@,
        PeerId::of_bytes(bytes@) == PeerId(bytes),
{
    assert(PeerId::of_bytes(bytes@).0 =~= bytes);
}

/// On a slice of 20 bytes the fallible conversion succeeds, and makes the
/// peer ID that the infallible conversion makes of an array of the same
/// bytes.
pub proof fn lemma_try_from_agrees_with_from(value: &[u8], bytes: [u8; 20])
    requires
        value@ == bytes@,
    ensures
        <PeerId as TryFromSpec<&[u8]>>::try_from_spec(value) == Ok::<PeerId, BadPeerIdLengthError>(
            <PeerId as FromSpec<[u8; 20]>>::from_spec(bytes),
        ),
{
    lemma_bytes_round_trip(bytes);
}

/// On a slice of any other length the fallible conversion fails, and the
/// error holds that length.
pub proof fn lemma_try_from_rejects_other_lengths(value: &[u8])
    requires
        value@.len() != 20,
    ensures
        <PeerId as TryFromSpec<&[u8]>>::try_from_spec(value) == Err::<PeerId, BadPeerIdLengthError>(
            BadPeerIdLengthError(value.len()),
        ),
{
}

} // verus!
