//! Session tokens: random identifiers, their textual form, and parsing.
use vstd::prelude::*;

verus! {

/// The lower-case hexadecimal digit for `d`.
pub open spec fn lower_hex_digit(d: nat) -> char {
    seq!['0', '1', '2', '3', '4', '5', '6', '7', '8', '9', 'a', 'b', 'c', 'd', 'e', 'f'][d as int]
}

/// The last `count` hexadecimal digits of `v`, most significant first, zero-padded.
pub open spec fn hex_digits(v: nat, count: nat) -> Seq<char>
    decreases count,
{
    if count == 0 {
        Seq::empty()
    } else {
        hex_digits(v / 16, (count - 1) as nat).push(lower_hex_digit(v % 16))
    }
}

/// The hyphenated form of a 128-bit identifier: 32 lower-case hexadecimal
/// digits grouped 8-4-4-4-12.
pub open spec fn hyphenated_text(v: u128) -> Seq<char> {
    let d = hex_digits(v as nat, 32);
    d.subrange(0, 8) + seq!['-'] + d.subrange(8, 12) + seq!['-'] + d.subrange(12, 16) + seq!['-']
        + d.subrange(16, 20) + seq!['-'] + d.subrange(20, 32)
}

/// The identifier that a text denotes under the UUID grammar (hyphenated,
/// simple, braced or URN forms), if it denotes one.
pub uninterp spec fn parsed_uuid(text: Seq<char>) -> Option<u128>;

/// Relies on `uuid::Uuid::new_v4` and `Uuid::as_u128`: a fresh random identifier.
#[verifier::external_body]
pub(crate) fn new_session() -> (r: u128) {
    uuid::Uuid::new_v4().as_u128()
}

/// Relies on `uuid::Uuid::from_u128` and the `Display` of `Uuid::hyphenated`:
/// the identifier's big-endian bytes as hyphenated lower-case hexadecimal.
#[verifier::external_body]
pub(crate) fn session_text(v: u128) -> (r: String)
    ensures
        r@ == hyphenated_text(v),
{
    uuid::Uuid::from_u128(v).hyphenated().to_string()
}

/// Relies on `uuid::Uuid::parse_str` and `Uuid::as_u128`: the identifier a text
/// denotes, or `None` when the text is not a UUID; the hyphenated form of an
/// identifier denotes that identifier.
#[verifier::external_body]
pub(crate) fn parse_session(text: &str) -> (r: Option<u128>)
    ensures
        r == parsed_uuid(text@),
        forall|v: u128| text@ == #[trigger] hyphenated_text(v) ==> r == Some(v),
{
    match uuid::Uuid::parse_str(text) {
        Ok(u) => Some(u.as_u128()),
        Err(_) => None,
    }
}

} // verus!
