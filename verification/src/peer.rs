use vstd::prelude::*;

verus! {

/// What `uuid::Uuid::parse_str` makes of a text: the 128-bit value it reads,
/// or `None` where it reports an error.
pub uninterp spec fn uuid_parse(text: Seq<char>) -> Option<u128>;

/// The sixteen lower-case hexadecimal digits.
pub open spec fn hex_digits() -> Seq<char> {
    seq!['0', '1', '2', '3', '4', '5', '6', '7', '8', '9', 'a', 'b', 'c', 'd', 'e', 'f']
}

/// The `k`-th hexadecimal digit of `id`, counted from the most significant.
pub open spec fn hex_digit_at(id: u128, k: int) -> char
    recommends
        0 <= k < 32,
{
    hex_digits()[((id as int) / vstd::arithmetic::power2::pow2(((31 - k) * 4) as nat) as int) % 16]
}

/// The standard hyphenated lower-case form of a 128-bit identifier:
/// 32 hexadecimal digits, most significant first, in groups of 8, 4, 4, 4
/// and 12 separated by hyphens.
pub open spec fn hyphenated(id: u128) -> Seq<char> {
    Seq::new(
        36,
        |i: int|
            if i == 8 || i == 13 || i == 18 || i == 23 {
                '-'
            } else if i < 8 {
                hex_digit_at(id, i)
            } else if i < 13 {
                hex_digit_at(id, i - 1)
            } else if i < 18 {
                hex_digit_at(id, i - 2)
            } else if i < 23 {
                hex_digit_at(id, i - 3)
            } else {
                hex_digit_at(id, i - 4)
            },
    )
}

/// Whether `id` carries the marks of a random (version 4) identifier: the
/// version nibble is 4 and the two variant bits are `10`.
pub open spec fn is_random_id(id: u128) -> bool {
    &&& (id >> 76) & 0xf == 4
    &&& (id >> 62) & 0x3 == 2
}

/// Calls `uuid::Uuid::parse_str` and hands back the value as a `u128`
/// (`Uuid::as_u128`). The contract only gives the outcome its name.
#[verifier::external_body]
fn parse_uuid(text: &str) -> (id: Option<u128>)
    ensures
        id == uuid_parse(text@),
{
    match uuid::Uuid::parse_str(text) {
        Ok(parsed) => Some(parsed.as_u128()),
        Err(_) => None,
    }
}

/// Calls `uuid::Uuid::new_v4`. The value is random; the contract claims only
/// the version and variant bits that `new_v4` sets in every identifier.
#[verifier::external_body]
pub(crate) fn random_uuid() -> (id: u128)
    ensures
        is_random_id(id),
{
    uuid::Uuid::new_v4().as_u128()
}

/// Formats through `uuid::Uuid`'s `Display`, which writes the hyphenated
/// lower-case form. The contract claims that form, and that
/// `Uuid::parse_str` reads it back as the same value (its documentation
/// accepts every format the crate generates).
#[verifier::external_body]
fn format_uuid(id: u128) -> (text: String)
    ensures
        text@ == hyphenated(id),
        uuid_parse(text@) == Some(id),
{
    uuid::Uuid::from_u128(id).to_string()
}

/// A 128-bit opaque peer identifier. Two identifiers are the same peer
/// exactly when all 128 bits agree.
#[derive(Clone, Copy, Debug, PartialEq, Eq, Hash, Structural)]
pub struct PeerId(pub u128);

impl PeerId {
    /// A fresh random identifier.
    pub fn new() -> (id: PeerId)
        ensures
            is_random_id(id.0),
    {
        PeerId(random_uuid())
    }

    /// The identifier that a text denotes, read as a UUID string.
    pub open spec fn parse_spec(text: Seq<char>) -> Option<PeerId> {
        match uuid_parse(text) {
            Some(value) => Some(PeerId(value)),
            None => None,
        }
    }

    /// Reads an identifier from its textual form. `None` for a text that is
    /// no well-formed UUID.
    pub fn parse(text: &str) -> (id: Option<PeerId>)
        ensures
            id == PeerId::parse_spec(text@),
    {
        match parse_uuid(text) {
            Some(value) => Some(PeerId(value)),
            None => None,
        }
    }

    /// The hyphenated lower-case text of the identifier; `parse` reads it
    /// back.
    pub fn to_string(&self) -> (text: String)
        ensures
            text@ == hyphenated(self.0),
            PeerId::parse_spec(text@) == Some(*self),
    {
        format_uuid(self.0)
    }
}

} // verus!
