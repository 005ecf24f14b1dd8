//! Note identifiers: 128-bit values and their text form.

use std::str::FromStr;
use vstd::prelude::*;
use crate::failure::Failure;

verus! {

/// The lowercase hexadecimal digit that stands for `n`, for `0 <= n < 16`.
pub open spec fn hex_digit(n: u128) -> char {
    if n < 10 {
        (n + 0x30) as char
    } else {
        (n + 0x57) as char
    }
}

/// The `k`-th group of four bits of `id`, counted from the most significant
/// group, for `0 <= k < 32`.
pub open spec fn nibble(id: u128, k: u128) -> u128 {
    (id >> (((31 - k) * 4) as u128)) & 0xf
}

/// How many hyphens stand before position `i` of the canonical text.
pub open spec fn hyphens_before(i: int) -> int {
    if i > 23 {
        4
    } else if i > 18 {
        3
    } else if i > 13 {
        2
    } else if i > 8 {
        1
    } else {
        0
    }
}

/// The character at position `i` of the canonical text of `id`.
pub open spec fn canonical_char(id: u128, i: int) -> char {
    if i == 8 || i == 13 || i == 18 || i == 23 {
        '-'
    } else {
        hex_digit(nibble(id, (i - hyphens_before(i)) as u128))
    }
}

/// The canonical text of an identifier: 32 lowercase hexadecimal digits,
/// most significant first, in groups of 8, 4, 4, 4 and 12 with a hyphen
/// between two groups.
pub open spec fn canonical_text(id: u128) -> Seq<char> {
    Seq::new(36, |i: int| canonical_char(id, i))
}

/// Whether `id` carries the marks of a randomly drawn identifier: version 4
/// in bits 76 to 79, and `10` in bits 62 and 63.
pub open spec fn is_random_id(id: u128) -> bool {
    id & 0x0000_0000_0000_f000_c000_0000_0000_0000 == 0x0000_0000_0000_4000_8000_0000_0000_0000
}

/// The identifier that a text stands for, if it stands for one. This is what
/// `uuid::Uuid::parse_str` makes of the text.
pub uninterp spec fn parsed_id(text: Seq<char>) -> Option<u128>;

#[verifier::external_type_specification]
#[verifier::external_body]
pub struct ExUuidError(uuid::Error);

/// A new identifier, drawn at random.
///
/// Trusted: calls `uuid::Uuid::new_v4` and reads the value with
/// `Uuid::as_u128`. The bits are random but for the six that mark the version
/// and the variant, which is all the contract claims.
#[verifier::external_body]
pub(crate) fn fresh_id() -> (id: u128)
    ensures
        is_random_id(id),
{
    uuid::Uuid::new_v4().as_u128()
}

/// The canonical text of `id`.
///
/// Trusted: calls `uuid::Uuid::to_string` on `Uuid::from_u128(id)`, which
/// writes the hyphenated lowercase form.
#[verifier::external_body]
pub(crate) fn id_text(id: u128) -> (text: String)
    ensures
        text@ == canonical_text(id),
{
    uuid::Uuid::from_u128(id).to_string()
}

/// Reads an identifier from its text.
///
/// Trusted: calls `uuid::Uuid::from_str`, which depends on the text alone.
/// The contract names what it makes of the text and claims no more.
#[verifier::external_body]
pub(crate) fn read_id(text: &str) -> (r: Result<u128, uuid::Error>)
    ensures
        match r {
            Ok(id) => parsed_id(text@) == Some(id),
            Err(_) => parsed_id(text@) is None,
        },
{
    match uuid::Uuid::from_str(text) {
        Ok(id) => Ok(id.as_u128()),
        Err(e) => Err(e),
    }
}

/// The result of reading an identifier, as a caller of the repository sees
/// it: a text that stands for no identifier is a malformed request.
pub open spec fn checked_id(parsed: Option<u128>) -> Result<u128, Failure> {
    match parsed {
        Some(id) => Ok(id),
        None => Err(Failure::BadRequest),
    }
}

/// Converts the wire form of an identifier to its storage form. A text that
/// does not parse is rejected as [`Failure::BadRequest`].
pub fn parse_id(text: &str) -> (r: Result<u128, Failure>)
    ensures
        r == checked_id(parsed_id(text@)),
{
    match read_id(text) {
        Ok(id) => Ok(id),
        Err(_) => Err(Failure::BadRequest),
    }
}

/// The position in the canonical text of the `k`-th digit, for `0 <= k < 32`.
spec fn digit_position(k: u128) -> int {
    if k < 8 {
        k as int
    } else if k < 12 {
        k + 1
    } else if k < 16 {
        k + 2
    } else if k < 20 {
        k + 3
    } else {
        k + 4
    }
}

proof fn lemma_digit_decides_nibble(a: u128, b: u128, k: u128)
    requires
        k < 32,
        canonical_text(a) == canonical_text(b),
    ensures
        nibble(a, k) == nibble(b, k),
{
    let i = digit_position(k);
    assert(canonical_text(a)[i] == canonical_char(a, i));
    assert(canonical_text(b)[i] == canonical_char(b, i));
    assert((i - hyphens_before(i)) as u128 == k);
    let shift: u128 = ((31 - k) * 4) as u128;
    let x: u128 = (a >> shift) & 0xf;
    let y: u128 = (b >> shift) & 0xf;
    assert(x < 16) by (bit_vector)
        requires
            x == (a >> shift) & 0xf,
    ;
    assert(y < 16) by (bit_vector)
        requires
            y == (b >> shift) & 0xf,
    ;
    assert(hex_digit(x) == hex_digit(y));
}

proof fn lemma_leading_digits_decide(a: u128, b: u128, k: u128)
    requires
        k < 32,
        forall|j: u128| j <= k ==> nibble(a, j) == nibble(b, j),
    ensures
        a >> (((31 - k) * 4) as u128) == b >> (((31 - k) * 4) as u128),
    decreases k,
{
    let low: u128 = ((31 - k) * 4) as u128;
    assert(nibble(a, k) == nibble(b, k));
    if k == 0 {
        assert(a >> low == b >> low) by (bit_vector)
            requires
                low == 124,
                (a >> low) & 0xf == (b >> low) & 0xf,
        ;
    } else {
        let high: u128 = ((31 - (k - 1)) * 4) as u128;
        lemma_leading_digits_decide(a, b, (k - 1) as u128);
        assert(a >> low == b >> low) by (bit_vector)
            requires
                low <= 120,
                high == low + 4,
                a >> high == b >> high,
                (a >> low) & 0xf == (b >> low) & 0xf,
        ;
    }
}

/// The canonical text loses nothing: two identifiers with the same text are
/// the same identifier.
pub proof fn lemma_canonical_text_decides_id(a: u128, b: u128)
    requires
        canonical_text(a) == canonical_text(b),
    ensures
        a == b,
{
    assert forall|j: u128| j <= 31 implies nibble(a, j) == nibble(b, j) by {
        lemma_digit_decides_nibble(a, b, j);
    }
    lemma_leading_digits_decide(a, b, 31);
    assert(a == b) by (bit_vector)
        requires
            a >> 0u128 == b >> 0u128,
    ;
}

} // verus!
