//! 128-bit identifiers: sessions, folders, courses and sets are all named by
//! one. The library holds an identifier as the `u128` whose big-endian bytes
//! are the UUID's bytes; the `uuid` crate generates, prints and parses them.

use vstd::prelude::*;

verus! {

/// The bits of an identifier that say which kind of UUID it is.
pub const KIND_MASK: u128 = 0x0000_0000_0000_f000_c000_0000_0000_0000;

/// What those bits hold in an identifier that was drawn at random.
pub const RANDOM_KIND: u128 = 0x0000_0000_0000_4000_8000_0000_0000_0000;

/// Sixteen to the power `n`.
pub open spec fn sixteen_to(n: nat) -> nat
    decreases n,
{
    if n == 0 {
        1
    } else {
        16 * sixteen_to((n - 1) as nat)
    }
}

/// The hexadecimal digit of `id` at place `k`, counted from the most
/// significant of its 32 digits.
pub open spec fn hex_place(id: u128, k: int) -> int {
    (id as int / sixteen_to((31 - k) as nat) as int) % 16
}

/// How many hyphens stand before position `i` of the 36 characters.
pub open spec fn hyphens_before(i: int) -> int {
    if i < 8 {
        0
    } else if i < 13 {
        1
    } else if i < 18 {
        2
    } else if i < 23 {
        3
    } else {
        4
    }
}

/// The text of an identifier: its 32 lower-case hexadecimal digits in groups
/// of 8, 4, 4, 4 and 12, with a hyphen between two groups.
pub open spec fn id_text(id: u128) -> Seq<char> {
    Seq::new(
        36,
        |i: int|
            if i == 8 || i == 13 || i == 18 || i == 23 {
                '-'
            } else {
                "0123456789abcdef"@[hex_place(id, i - hyphens_before(i))]
            },
    )
}

/// What `uuid::Uuid::parse_str` makes of a text: the identifier it reads, or
/// the words of its complaint.
pub uninterp spec fn id_parsed(text: Seq<char>) -> Result<u128, Seq<char>>;

/// `uuid::Uuid::new_v4`: sixteen bytes from the operating system's generator
/// with the version set to 4 and the variant to RFC 4122. Nothing else is
/// known of the outcome, two calls may even agree. Where the operating
/// system has no random bytes to give, the call panics.
#[verifier::external_body]
fn uuid_new_v4() -> (id: u128)
    ensures
        id & KIND_MASK == RANDOM_KIND,
{
    uuid::Uuid::new_v4().as_u128()
}

/// `Display` of `uuid::Uuid`, which prints the hyphenated lower-case form.
#[verifier::external_body]
fn uuid_to_string(id: u128) -> (text: String)
    ensures
        text@ == id_text(id),
{
    uuid::Uuid::from_u128(id).to_string()
}

/// `uuid::Uuid::parse_str`, with the identifier taken as an integer and the
/// error as the text that its `Display` prints. The outcome depends on the
/// text alone.
#[verifier::external_body]
fn uuid_parse_str(text: &str) -> (r: Result<u128, String>)
    ensures
        match r {
            Ok(id) => id_parsed(text@) == Ok::<u128, Seq<char>>(id),
            Err(why) => id_parsed(text@) == Err::<u128, Seq<char>>(why@),
        },
{
    match uuid::Uuid::parse_str(text) {
        Ok(id) => Ok(id.as_u128()),
        Err(why) => Err(why.to_string()),
    }
}

/// Whether `r` is what reading `text` as an identifier gives, the complaint
/// taken by its characters.
pub open spec fn is_id_reading(text: Seq<char>, r: Result<u128, String>) -> bool {
    match r {
        Ok(id) => id_parsed(text) == Ok::<u128, Seq<char>>(id),
        Err(why) => id_parsed(text) == Err::<u128, Seq<char>>(why@),
    }
}

/// Whether an identifier carries the marks of one drawn at random.
pub open spec fn is_random_id(id: u128) -> bool {
    id & KIND_MASK == RANDOM_KIND
}

/// Draws a fresh identifier at random.
pub fn new_id() -> (id: u128)
    ensures
        is_random_id(id),
{
    uuid_new_v4()
}

/// Prints an identifier in the hyphenated form.
pub fn id_to_string(id: u128) -> (text: String)
    ensures
        text@ == id_text(id),
{
    uuid_to_string(id)
}

/// Reads an identifier from a text in any of the forms the `uuid` crate
/// accepts, or says why the text is none.
pub fn parse_id(text: &str) -> (r: Result<u128, String>)
    ensures
        is_id_reading(text@, r),
{
    uuid_parse_str(text)
}

} // verus!
