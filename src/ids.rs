//! Correlation identifiers: 128-bit values, written on the wire in the
//! hyphenated hexadecimal form.
use vstd::prelude::*;
use vstd::arithmetic::power::pow;

verus! {

/// The identifier that stands for "no request": a response under it reports
/// that the connection closed.
pub const NIL_ID: u128 = 0;

/// The lowercase hexadecimal digit for `n` (below 16).
pub open spec fn hex_digit(n: int) -> char {
    seq!['0', '1', '2', '3', '4', '5', '6', '7', '8', '9', 'a', 'b', 'c', 'd', 'e', 'f'][n]
}

/// Digit `k` of `id` in base 16, counted from the most significant.
pub open spec fn nibble(id: u128, k: int) -> int {
    (id as int / pow(16, (31 - k) as nat)) % 16
}

/// How many hyphens stand before position `p` of the hyphenated form.
pub open spec fn hyphens_before(p: int) -> int {
    if p < 8 {
        0
    } else if p < 13 {
        1
    } else if p < 18 {
        2
    } else if p < 23 {
        3
    } else {
        4
    }
}

/// The hyphenated form of `id`: 32 lowercase hex digits in groups of
/// 8, 4, 4, 4 and 12, most significant first.
pub open spec fn uuid_text(id: u128) -> Seq<char> {
    Seq::new(
        36,
        |p: int|
            if p == 8 || p == 13 || p == 18 || p == 23 {
                '-'
            } else {
                hex_digit(nibble(id, p - hyphens_before(p)))
            },
    )
}

/// The identifier that a text reads as, if any.
pub uninterp spec fn parsed_id(s: Seq<char>) -> Option<u128>;

/// Relies on `uuid::Uuid::new_v4`, which sets the version bits to 4 and the
/// variant bits to `10`, so the result is never the nil identifier.
#[verifier::external_body]
pub fn fresh_id() -> (r: u128)
    ensures
        (r >> 76u128) & 0xfu128 == 4,
        (r >> 62u128) & 0x3u128 == 2,
        r != NIL_ID,
{
    uuid::Uuid::new_v4().as_u128()
}

/// Relies on the `Display` of `uuid::Uuid`, which writes the lowercase
/// hyphenated form.
#[verifier::external_body]
pub fn id_text(id: u128) -> (r: String)
    ensures
        r@ == uuid_text(id),
{
    uuid::Uuid::from_u128(id).to_string()
}

/// Relies on `uuid::Uuid::parse_str`, which reads every form that the crate
/// writes, the hyphenated one among them.
#[verifier::external_body]
pub fn parse_id(s: &str) -> (r: Option<u128>)
    ensures
        r == parsed_id(s@),
        forall|id: u128| s@ == uuid_text(id) ==> r == Some(id),
{
    uuid::Uuid::parse_str(s).ok().map(|u| u.as_u128())
}

} // verus!
