//! Bot identifiers: the 128-bit value of a UUID, read from and written as
//! text by the `uuid` crate.

use vstd::prelude::*;

verus! {

/// What `Uuid::parse_str` makes of a text: the UUID's 128-bit value, or the
/// text its error displays.
pub uninterp spec fn uuid_parsed(s: Seq<char>) -> Result<u128, Seq<char>>;

/// Calls `uuid::Uuid`'s `FromStr` on `s` (which parses as `parse_str`);
/// the outcome, value or error text, is named by `uuid_parsed`.
#[verifier::external_body]
pub(crate) fn parse_uuid(s: &str) -> (r: Result<u128, String>)
    ensures
        match r {
            Ok(v) => uuid_parsed(s@) == Ok::<u128, Seq<char>>(v),
            Err(e) => uuid_parsed(s@) == Err::<u128, Seq<char>>(e@),
        },
{
    match s.parse::<uuid::Uuid>() {
        Ok(u) => Ok(u.as_u128()),
        Err(e) => Err(format!("{}", e)),
    }
}

/// The lower-case hexadecimal digit for `n` below 16.
pub open spec fn hex_digit(n: u128) -> char {
    if n < 10 {
        (48 + n) as char
    } else {
        (87 + n) as char
    }
}

/// The `i`-th of the 32 hexadecimal digits of `id`, most significant first.
pub open spec fn uuid_nibble(id: u128, i: int) -> u128 {
    (id >> ((124 - 4 * i) as u128)) & 15u128
}

/// The number of hyphens before position `k` of the hyphenated form.
pub open spec fn hyphens_before(k: int) -> int {
    if k < 9 { 0 } else if k < 14 { 1 } else if k < 19 { 2 } else if k < 24 { 3 } else { 4 }
}

/// The hyphenated lower-case form of a UUID: 32 hexadecimal digits in
/// groups of 8, 4, 4, 4 and 12 joined by hyphens.
pub open spec fn uuid_hyphenated(id: u128) -> Seq<char> {
    Seq::new(36, |k: int|
        if k == 8 || k == 13 || k == 18 || k == 23 {
            '-'
        } else {
            hex_digit(uuid_nibble(id, k - hyphens_before(k)))
        })
}

/// Calls `Display` of `uuid::Uuid` for the UUID with value `id`, which
/// writes its hyphenated lower-case form.
#[verifier::external_body]
pub(crate) fn uuid_text(id: u128) -> (r: String)
    ensures
        r@ == uuid_hyphenated(id),
{
    uuid::Uuid::from_u128(id).to_string()
}

/// The hyphenated lower-case text of a bot id.
pub fn bot_id_text(id: u128) -> (r: String)
    ensures
        r@ == uuid_hyphenated(id),
{
    uuid_text(id)
}

/// The bot id a UUID text stands for, or the parser's error message.
pub fn parse_bot_id(s: &str) -> (r: Result<u128, String>)
    ensures
        match r {
            Ok(v) => uuid_parsed(s@) == Ok::<u128, Seq<char>>(v),
            Err(e) => uuid_parsed(s@) == Err::<u128, Seq<char>>(e@),
        },
{
    parse_uuid(s)
}

} // verus!
