use vstd::prelude::*;

verus! {

/// What `uuid::Uuid::parse_str` makes of a text: the identifier's 128-bit
/// value, or nothing when the text is not an identifier.
pub uninterp spec fn uuid_value_of(s: Seq<char>) -> Option<u128>;

/// `16^n`.
pub open spec fn pow16(n: nat) -> int
    decreases n,
{
    if n == 0 {
        1
    } else {
        16 * pow16((n - 1) as nat)
    }
}

/// The lower-case hexadecimal digit of a value below sixteen.
pub open spec fn hex_lower(d: int) -> char {
    if d < 10 {
        (('0' as int) + d) as char
    } else {
        (('a' as int) + d - 10) as char
    }
}

/// The `d`-th hexadecimal digit of `v`, counted from the most significant.
pub open spec fn nibble(v: u128, d: int) -> int {
    (v as int / pow16((31 - d) as nat)) % 16
}

/// Whether position `k` of the hyphenated form holds a hyphen.
pub open spec fn is_hyphen_pos(k: int) -> bool {
    k == 8 || k == 13 || k == 18 || k == 23
}

/// The number of hyphens that stand before position `k`.
pub open spec fn hyphens_before(k: int) -> int {
    if k <= 8 {
        0
    } else if k <= 13 {
        1
    } else if k <= 18 {
        2
    } else if k <= 23 {
        3
    } else {
        4
    }
}

/// The hyphenated text of an identifier: 32 lower-case hexadecimal digits,
/// most significant first, grouped 8-4-4-4-12.
pub open spec fn hyphenated_text(v: u128) -> Seq<char> {
    Seq::new(
        36,
        |k: int|
            if is_hyphen_pos(k) {
                '-'
            } else {
                hex_lower(nibble(v, k - hyphens_before(k)))
            },
    )
}

/// Relies on `uuid::Uuid::parse_str`: the value of the identifier that the
/// text spells, if it spells one.
#[verifier::external_body]
pub(crate) fn parse_uuid(s: &str) -> (r: Option<u128>)
    ensures
        r == uuid_value_of(s@),
{
    match uuid::Uuid::parse_str(s) {
        Ok(u) => Some(u.as_u128()),
        Err(_) => None,
    }
}

/// Relies on `uuid::Uuid::from_u128` and the `Display` of
/// `uuid::fmt::Hyphenated`, which writes the big-endian bytes as lower-case
/// hexadecimal digits with hyphens after the 8th, 12th, 16th and 20th digit.
#[verifier::external_body]
pub(crate) fn uuid_hyphenated(v: u128) -> (r: String)
    ensures
        r@ == hyphenated_text(v),
{
    uuid::Uuid::from_u128(v).hyphenated().to_string()
}

/// The identifier that a client wrote, if the text is one.
pub fn film_id_from_text(text: &str) -> (r: Option<u128>)
    ensures
        r == uuid_value_of(text@),
{
    parse_uuid(text)
}

/// The text under which an identifier is shown to clients.
pub fn film_id_to_text(id: u128) -> (r: String)
    ensures
        r@ == hyphenated_text(id),
        r@.len() == 36,
{
    uuid_hyphenated(id)
}

} // verus!
