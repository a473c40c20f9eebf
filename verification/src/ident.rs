//! Identifiers of resources: 128-bit numbers, written the way UUIDs are.

use vstd::prelude::*;
use vstd::arithmetic::power::pow;
use crate::text::digit_char;

verus! {

/// The character that writes the hexadecimal digit `n` in lower case.
pub open spec fn hex_char(n: nat) -> char {
    if n < 10 {
        digit_char(n)
    } else if n == 10 {
        'a'
    } else if n == 11 {
        'b'
    } else if n == 12 {
        'c'
    } else if n == 13 {
        'd'
    } else if n == 14 {
        'e'
    } else {
        'f'
    }
}

/// The hexadecimal digit of `id` with weight `16^k`.
pub open spec fn hex_digit(id: u128, k: nat) -> nat {
    ((id as int / pow(16, k)) % 16) as nat
}

/// Which of the 32 digits, counted from the most significant, stands at
/// place `i` of the 36 characters.
pub open spec fn digit_place(i: int) -> int {
    if i < 8 {
        i
    } else if i < 13 {
        i - 1
    } else if i < 18 {
        i - 2
    } else if i < 23 {
        i - 3
    } else {
        i - 4
    }
}

/// The hyphenated form of an identifier: 32 lower-case hexadecimal digits,
/// most significant first, in groups of 8, 4, 4, 4 and 12 with a `-` between
/// the groups.
pub open spec fn id_text(id: u128) -> Seq<char> {
    Seq::new(
        36,
        |i: int|
            if i == 8 || i == 13 || i == 18 || i == 23 {
                '-'
            } else {
                hex_char(hex_digit(id, (31 - digit_place(i)) as nat))
            },
    )
}

/// The hyphenated forms of a list of identifiers.
pub open spec fn id_texts(ids: Seq<u128>) -> Seq<Seq<char>> {
    ids.map_values(|id: u128| id_text(id))
}

/// Calls `uuid::Uuid::new_v4` and hands its 128 bits back as a number. The
/// bits come from the system's random source, so the contract says only what
/// `new_v4` fixes of every result: the version digit is 4 and the variant
/// bits are `10`. Where the system gives no random bytes, `new_v4` panics.
#[verifier::external_body]
pub(crate) fn random_id() -> (r: u128)
    ensures
        (r >> 76u128) & 0xfu128 == 4u128,
        (r >> 62u128) & 0x3u128 == 2u128,
{
    uuid::Uuid::new_v4().as_u128()
}

/// Calls the `Display` of `uuid::Uuid` on the UUID made of the 128 bits of
/// `id`. The contract claims that it writes the hyphenated lower-case form.
#[verifier::external_body]
pub(crate) fn write_id(id: u128) -> (r: String)
    ensures
        r@ == id_text(id),
{
    uuid::Uuid::from_u128(id).to_string()
}

/// A fresh random identifier.
pub fn fresh_id() -> (r: u128)
    ensures
        (r >> 76u128) & 0xfu128 == 4u128,
        (r >> 62u128) & 0x3u128 == 2u128,
{
    random_id()
}

/// Writes an identifier in its hyphenated form.
pub fn id_to_text(id: u128) -> (r: String)
    ensures
        r@ == id_text(id),
        r@.len() == 36,
{
    write_id(id)
}

/// The hyphenated form of an identifier that may be missing.
pub open spec fn optional_id_text(id: Option<u128>) -> Option<Seq<char>> {
    match id {
        Some(i) => Some(id_text(i)),
        None => None,
    }
}

/// Writes an identifier that may be missing.
pub fn optional_id_to_text(id: Option<u128>) -> (r: Option<String>)
    ensures
        crate::href::text_of(r) == optional_id_text(id),
{
    match id {
        Some(i) => Some(write_id(i)),
        None => None,
    }
}

/// Writes each identifier of a list in its hyphenated form.
pub fn ids_to_texts(ids: &Vec<u128>) -> (r: Vec<String>)
    ensures
        crate::text::views(r@) == id_texts(ids@),
{
    let mut r: Vec<String> = Vec::new();
    let mut i: usize = 0;
    while i < ids.len()
        invariant
            i <= ids.len(),
            crate::text::views(r@) == id_texts(ids@.subrange(0, i as int)),
        decreases ids.len() - i,
    {
        let t = write_id(ids[i]);
        let ghost before = r@;
        r.push(t);
        proof {
            assert(crate::text::views(r@) =~= crate::text::views(before).push(t@));
            assert(ids@.subrange(0, i + 1) =~= ids@.subrange(0, i as int).push(ids@[i as int]));
            assert(id_texts(ids@.subrange(0, i + 1)) =~= id_texts(ids@.subrange(0, i as int)).push(
                id_text(ids@[i as int]),
            ));
        }
        i = i + 1;
    }
    proof {
        assert(ids@.subrange(0, ids.len() as int) =~= ids@);
    }
    r
}

} // verus!
