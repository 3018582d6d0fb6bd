//! Identifiers. Each kind wraps the 128-bit value of a UUID; the kinds are
//! distinct types so that one cannot stand where another is expected.
use vstd::prelude::*;
use vstd::arithmetic::power2::pow2;

verus! {

/// Identifies a message.
#[derive(Clone, Copy, Debug, PartialEq, Eq, Hash, Structural)]
pub struct MessageId(pub u128);

/// Identifies the channel a message belongs to.
#[derive(Clone, Copy, Debug, PartialEq, Eq, Hash, Structural)]
pub struct ChannelId(pub u128);

/// Identifies the author of a message.
#[derive(Clone, Copy, Debug, PartialEq, Eq, Hash, Structural)]
pub struct AuthorId(pub u128);

/// Identifies an attachment.
#[derive(Clone, Copy, Debug, PartialEq, Eq, Hash, Structural)]
pub struct AttachmentId(pub u128);

impl From<u128> for MessageId {
    fn from(raw: u128) -> (r: MessageId)
        ensures
            r.0 == raw,
    {
        MessageId(raw)
    }
}

impl vstd::std_specs::convert::FromSpecImpl<u128> for MessageId {
    open spec fn obeys_from_spec() -> bool {
        true
    }

    open spec fn from_spec(raw: u128) -> MessageId {
        MessageId(raw)
    }
}

impl From<u128> for ChannelId {
    fn from(raw: u128) -> (r: ChannelId)
        ensures
            r.0 == raw,
    {
        ChannelId(raw)
    }
}

impl vstd::std_specs::convert::FromSpecImpl<u128> for ChannelId {
    open spec fn obeys_from_spec() -> bool {
        true
    }

    open spec fn from_spec(raw: u128) -> ChannelId {
        ChannelId(raw)
    }
}

impl From<u128> for AuthorId {
    fn from(raw: u128) -> (r: AuthorId)
        ensures
            r.0 == raw,
    {
        AuthorId(raw)
    }
}

impl vstd::std_specs::convert::FromSpecImpl<u128> for AuthorId {
    open spec fn obeys_from_spec() -> bool {
        true
    }

    open spec fn from_spec(raw: u128) -> AuthorId {
        AuthorId(raw)
    }
}

impl From<u128> for AttachmentId {
    fn from(raw: u128) -> (r: AttachmentId)
        ensures
            r.0 == raw,
    {
        AttachmentId(raw)
    }
}

impl vstd::std_specs::convert::FromSpecImpl<u128> for AttachmentId {
    open spec fn obeys_from_spec() -> bool {
        true
    }

    open spec fn from_spec(raw: u128) -> AttachmentId {
        AttachmentId(raw)
    }
}

/// A hexadecimal digit in lowercase.
pub open spec fn hex_digit(n: int) -> char {
    "0123456789abcdef"@[n]
}

/// The `k`-th group of four bits of `u`, counted from the most significant.
pub open spec fn nibble(u: u128, k: int) -> int {
    (u as int / pow2((4 * (31 - k)) as nat) as int) % 16
}

/// The hexadecimal digits of the nibbles `from` to `to` of `u`.
pub open spec fn hex_run(u: u128, from: int, to: int) -> Seq<char> {
    Seq::new((to - from) as nat, |i: int| hex_digit(nibble(u, from + i)))
}

/// The hyphenated lowercase form of the UUID whose 128-bit value is `u`:
/// groups of 8, 4, 4, 4 and 12 hexadecimal digits.
pub open spec fn uuid_text_of(u: u128) -> Seq<char> {
    hex_run(u, 0, 8) + seq!['-'] + hex_run(u, 8, 12) + seq!['-'] + hex_run(u, 12, 16) + seq!['-']
        + hex_run(u, 16, 20) + seq!['-'] + hex_run(u, 20, 32)
}

/// Relies on `uuid::Uuid::from_u128` and the `Display` of `Uuid`: the UUID
/// whose big-endian 128-bit value is `raw`, written hyphenated in lowercase.
#[verifier::external_body]
pub(crate) fn uuid_text(raw: u128) -> (r: String)
    ensures
        r@ == uuid_text_of(raw),
{
    uuid::Uuid::from_u128(raw).to_string()
}

impl MessageId {
    /// The hyphenated lowercase form of this id.
    pub fn text(&self) -> (r: String)
        ensures
            r@ == uuid_text_of(self.0),
    {
        uuid_text(self.0)
    }
}

impl ChannelId {
    /// The hyphenated lowercase form of this id.
    pub fn text(&self) -> (r: String)
        ensures
            r@ == uuid_text_of(self.0),
    {
        uuid_text(self.0)
    }
}

impl AuthorId {
    /// The hyphenated lowercase form of this id.
    pub fn text(&self) -> (r: String)
        ensures
            r@ == uuid_text_of(self.0),
    {
        uuid_text(self.0)
    }
}

impl AttachmentId {
    /// The hyphenated lowercase form of this id.
    pub fn text(&self) -> (r: String)
        ensures
            r@ == uuid_text_of(self.0),
    {
        uuid_text(self.0)
    }
}

} // verus!
