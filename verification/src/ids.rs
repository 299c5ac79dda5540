//! Universal identifiers: UUIDs, held as their 128-bit big-endian value
//! (`Uuid::as_u128`), with their text form.
use vstd::prelude::*;

verus! {

/// The lower-case hexadecimal digit of `d` (0..=15).
pub open spec fn hex_char(d: int) -> char {
    if d < 10 {
        (('0' as int) + d) as char
    } else {
        (('a' as int) + d - 10) as char
    }
}

/// 16 to the power `k`.
pub open spec fn pow16(k: nat) -> nat
    decreases k,
{
    if k == 0 {
        1
    } else {
        16 * pow16((k - 1) as nat)
    }
}

/// The `k`-th of the 32 hexadecimal digits of `u`, most significant first.
pub open spec fn nibble(u: u128, k: int) -> int {
    ((u as nat) / pow16((31 - k) as nat)) as int % 16
}

/// How many of the four hyphens of the text form stand before position `i`.
pub open spec fn hyphens_before(i: int) -> int {
    if i < 9 {
        0
    } else if i < 14 {
        1
    } else if i < 19 {
        2
    } else if i < 24 {
        3
    } else {
        4
    }
}

/// The hyphenated lower-case text of a UUID, as `Uuid`'s `Display` writes it:
/// 32 hexadecimal digits in groups of 8-4-4-4-12.
pub open spec fn uuid_text(u: u128) -> Seq<char> {
    Seq::new(
        36,
        |i: int|
            if i == 8 || i == 13 || i == 18 || i == 23 {
                '-'
            } else {
                hex_char(nibble(u, i - hyphens_before(i)))
            },
    )
}

/// What `Uuid::parse_str` reads from a text (it also accepts the simple, braced
/// and URN forms, in either case).
pub uninterp spec fn uuid_value(text: Seq<char>) -> Option<u128>;

/// The version 5 (SHA-1, name-based) UUID of `name` in `namespace`, as
/// `Uuid::new_v5` computes it.
pub uninterp spec fn uuid_v5_value(namespace: u128, name: Seq<u8>) -> u128;

/// When `text` is the hyphenated text of a UUID, `parsed` is that UUID.
pub open spec fn reads_back_uuid(text: Seq<char>, parsed: Option<u128>) -> bool {
    forall|u: u128| #![trigger uuid_text(u)] text == uuid_text(u) ==> parsed == Some(u)
}

/// `Uuid::new_v4()`: a random identifier. Nothing is known of its value.
#[verifier::external_body]
pub(crate) fn new_id() -> (r: u128) {
    uuid::Uuid::new_v4().as_u128()
}

/// `Uuid::NAMESPACE_URL`, the namespace for names that are URLs.
#[verifier::external_body]
pub(crate) fn namespace_url() -> (r: u128)
    ensures
        r == 0x6ba7b8119dad11d180b400c04fd430c8u128,
{
    uuid::Uuid::NAMESPACE_URL.as_u128()
}

/// `Uuid::new_v5(namespace, name)`: the identifier that the name determines.
#[verifier::external_body]
pub(crate) fn name_based_id(namespace: u128, name: &[u8]) -> (r: u128)
    ensures
        r == uuid_v5_value(namespace, name@),
{
    uuid::Uuid::new_v5(&uuid::Uuid::from_u128(namespace), name).as_u128()
}

/// `Uuid::to_string`: the hyphenated lower-case text.
#[verifier::external_body]
pub(crate) fn id_to_string(u: u128) -> (r: String)
    ensures
        r@ == uuid_text(u),
{
    uuid::Uuid::from_u128(u).to_string()
}

/// `Uuid::parse_str`. The text `id_to_string` writes reads back as the same UUID.
#[verifier::external_body]
pub(crate) fn parse_id(s: &str) -> (r: Option<u128>)
    ensures
        r == uuid_value(s@),
        reads_back_uuid(s@, r),
{
    match uuid::Uuid::parse_str(s) {
        Ok(u) => Some(u.as_u128()),
        Err(_) => None,
    }
}

} // verus!
