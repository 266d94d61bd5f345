//! Opaque references: 128-bit identifiers that stand for a stored record
//! inside a size-limited button payload.

use vstd::arithmetic::power::pow;
use vstd::prelude::*;

verus! {

/// The lower-case hexadecimal digit of a value below 16.
pub open spec fn hex_lower(d: nat) -> char
    recommends
        d < 16,
{
    if d < 10 {
        (0x30 + d) as u8 as char
    } else {
        (0x61 + d - 10) as u8 as char
    }
}

/// The hexadecimal digit of `id` at place `k`, counted from the most
/// significant of its 32 digits.
pub open spec fn hex_place(id: u128, k: int) -> nat
    recommends
        0 <= k < 32,
{
    ((id as nat) / (pow(16, (31 - k) as nat) as nat)) % 16
}

/// Whether position `i` of a reference's text holds a hyphen.
pub open spec fn is_hyphen_place(i: int) -> bool {
    i == 8 || i == 13 || i == 18 || i == 23
}

/// How many hyphens stand before position `i` of a reference's text.
pub open spec fn hyphens_before(i: int) -> int {
    (if i > 8 { 1int } else { 0 }) + (if i > 13 { 1int } else { 0 }) + (if i > 18 { 1int } else { 0 })
        + (if i > 23 { 1int } else { 0 })
}

/// The text of a reference: its 32 lower-case hexadecimal digits, most
/// significant first, in groups of 8, 4, 4, 4 and 12 with hyphens between.
pub open spec fn uuid_text(id: u128) -> Seq<char> {
    Seq::new(
        36,
        |i: int|
            if is_hyphen_place(i) {
                '-'
            } else {
                hex_lower(hex_place(id, i - hyphens_before(i)))
            },
    )
}

/// The reference that `uuid::Uuid::parse_str` reads from a text, if it
/// reads one.
pub uninterp spec fn uuid_parsed(text: Seq<char>) -> Option<u128>;

/// Makes a `uuid::Uuid` with `from_u128` and formats it with its
/// `Display`, which writes the hyphenated lower-case form. Claimed besides:
/// `Uuid::parse_str` reads that form back to the same value.
#[verifier::external_body]
fn format_uuid(id: u128) -> (out: String)
    ensures
        out@ == uuid_text(id),
        uuid_parsed(out@) == Some(id),
{
    uuid::Uuid::from_u128(id).to_string()
}

/// Calls `uuid::Uuid::parse_str` and takes the value with `as_u128`. The
/// contract only names the outcome.
#[verifier::external_body]
fn parse_uuid(text: &str) -> (out: Option<u128>)
    ensures
        out == uuid_parsed(text@),
{
    uuid::Uuid::parse_str(text).ok().map(|id| id.as_u128())
}

/// Whether an identifier is of version 4, the random kind, in the layout
/// of RFC 4122: of its 32 hexadecimal digits the thirteenth is 4 and the
/// seventeenth is one of 8, 9, a and b. The other 122 bits are free.
pub open spec fn is_random_uuid(id: u128) -> bool {
    hex_place(id, 12) == 4 && 8 <= hex_place(id, 16) <= 11
}

/// A reference to a stored record.
#[derive(Debug, Clone, Copy, PartialEq, Eq, Structural)]
pub struct Ref {
    pub value: u128,
}

impl Ref {
    /// A fresh random reference: an identifier of version 4.
    pub fn fresh() -> (out: Ref)
        ensures
            is_random_uuid(out.value),
    {
        Ref { value: random_uuid() }
    }

    /// The text of the reference, as it is written into payloads.
    pub fn to_text(&self) -> (out: String)
        ensures
            out@ == uuid_text(self.value),
            uuid_parsed(out@) == Some(self.value),
    {
        format_uuid(self.value)
    }

    /// Reads a reference from a text.
    pub fn parse(text: &str) -> (out: Option<Ref>)
        ensures
            out is Some <==> uuid_parsed(text@) is Some,
            out matches Some(r) ==> uuid_parsed(text@) == Some(r.value),
    {
        match parse_uuid(text) {
            Some(value) => Some(Ref { value }),
            None => None,
        }
    }
}

/// Calls `uuid::Uuid::new_v4`, which draws 128 random bits and sets the
/// version to 4 and the variant to that of RFC 4122. Claimed of every
/// draw: it has that version and that variant. Nothing is claimed of the
/// other bits.
#[verifier::external_body]
fn random_uuid() -> (out: u128)
    ensures
        is_random_uuid(out),
{
    uuid::Uuid::new_v4().as_u128()
}

/// The text of a random reference shows its version and its variant: the
/// first digit of the third group is 4, and the first digit of the fourth
/// group is one of 8, 9, a and b.
pub proof fn lemma_random_uuid_text(id: u128)
    requires
        is_random_uuid(id),
    ensures
        uuid_text(id)[14] == '4',
        uuid_text(id)[19] == '8' || uuid_text(id)[19] == '9' || uuid_text(id)[19] == 'a'
            || uuid_text(id)[19] == 'b',
{
}

/// The text of a reference has 36 characters, none of which is a colon:
/// each is a hyphen or a lower-case hexadecimal digit.
pub proof fn lemma_uuid_text_shape(id: u128)
    ensures
        uuid_text(id).len() == 36,
        forall|i: int|
            0 <= i < 36 ==> {
                let c = #[trigger] uuid_text(id)[i];
                c == '-' || ('0' <= c && c <= '9') || ('a' <= c && c <= 'f')
            },
        forall|i: int| 0 <= i < 36 ==> #[trigger] uuid_text(id)[i] != ':',
{
    assert forall|i: int| 0 <= i < 36 implies {
        let c = #[trigger] uuid_text(id)[i];
        c == '-' || ('0' <= c && c <= '9') || ('a' <= c && c <= 'f')
    } by {
        if !is_hyphen_place(i) {
            let d = hex_place(id, i - hyphens_before(i));
            assert(d < 16);
        }
    }
    assert forall|i: int| 0 <= i < 36 implies #[trigger] uuid_text(id)[i] != ':' by {
        let c = uuid_text(id)[i];
        assert(c == '-' || ('0' <= c && c <= '9') || ('a' <= c && c <= 'f'));
    }
}

} // verus!
