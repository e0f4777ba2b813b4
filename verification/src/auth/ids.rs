//! The text form of user ids, through the `uuid` crate.

use vstd::arithmetic::power::pow;
use vstd::prelude::*;

use super::domain::UserId;

verus! {

/// The lower-case hexadecimal digit of a value below 16.
pub open spec fn hex_digit(n: int) -> char {
    if n < 10 {
        (48 + n) as char
    } else {
        (87 + n) as char
    }
}

/// The `k`-th hexadecimal digit of the 128 bits, counted from the most
/// significant one (`k` in `0..32`).
pub open spec fn uuid_nibble(id: u128, k: int) -> int {
    (id as int / pow(16, (31 - k) as nat)) % 16
}

/// The hyphenated, lower-case text of the uuid with these 128 bits: its
/// 32 hexadecimal digits, most significant first, in groups of 8, 4, 4, 4
/// and 12 joined by `-`.
pub open spec fn uuid_text(id: u128) -> Seq<char> {
    Seq::new(
        36,
        |i: int|
            if i == 8 || i == 13 || i == 18 || i == 23 {
                '-'
            } else {
                let k = if i < 8 {
                    i
                } else if i < 13 {
                    i - 1
                } else if i < 18 {
                    i - 2
                } else if i < 23 {
                    i - 3
                } else {
                    i - 4
                };
                hex_digit(uuid_nibble(id, k))
            },
    )
}

/// What `uuid::Uuid::parse_str` gives for a text, as the 128 bits of the
/// uuid, or `None` where it refuses the text.
pub uninterp spec fn uuid_parse(s: Seq<char>) -> Option<u128>;

/// Formats the uuid with these bits through `uuid::Uuid`'s `Display` impl.
/// Trusted: the text is `uuid_text` of the bits (`Display` writes the
/// hyphenated, lower-case form), and `uuid::Uuid::parse_str`
/// reads it back to the same uuid (its documentation lists the hyphenated
/// form among those it accepts).
#[verifier::external_body]
pub(crate) fn user_id_to_string(id: UserId) -> (s: String)
    ensures
        s@ == uuid_text(id),
        uuid_parse(s@) == Some(id),
{
    uuid::Uuid::from_u128(id).to_string()
}

/// Reads a uuid with `uuid::Uuid::parse_str`. Trusted: the result is the one
/// named `uuid_parse`.
#[verifier::external_body]
pub(crate) fn user_id_from_str(s: &str) -> (r: Option<UserId>)
    ensures
        r == uuid_parse(s@),
{
    uuid::Uuid::parse_str(s).ok().map(|u| u.as_u128())
}

/// The text of a user id has 36 characters: hyphens at places 8, 13, 18
/// and 23, and lower-case hexadecimal digits everywhere else.
pub proof fn lemma_uuid_text_form(id: u128, i: int)
    requires
        0 <= i < 36,
    ensures
        uuid_text(id).len() == 36,
        (i == 8 || i == 13 || i == 18 || i == 23) ==> uuid_text(id)[i] == '-',
        !(i == 8 || i == 13 || i == 18 || i == 23) ==> {
            let c = uuid_text(id)[i] as u32;
            (48 <= c <= 57) || (97 <= c <= 102)
        },
{
    let k = if i < 8 {
        i
    } else if i < 13 {
        i - 1
    } else if i < 18 {
        i - 2
    } else if i < 23 {
        i - 3
    } else {
        i - 4
    };
    let n = uuid_nibble(id, k);
    assert(0 <= n < 16);
    if n < 10 {
        assert(((48 + n) as char) as u32 == 48 + n);
    } else {
        assert(((87 + n) as char) as u32 == 87 + n);
    }
}

} // verus!
