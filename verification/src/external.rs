//! The calls this library makes into `serde_json`, `email_address` and the
//! parts of `std` that have no specification of their own. Each contract here
//! is taken on trust from the documentation and source of the function named
//! above it; everything else in the crate is proved from them.
use vstd::prelude::*;
use vstd::string::StringSliceAdditionalSpecFns;
use vstd::utf8::valid_utf8;

verus! {

/// The decimal digits of a natural number, most significant first, as ASCII.
pub open spec fn decimal_digits(n: nat) -> Seq<u8>
    decreases n,
{
    if n < 10 {
        seq![(0x30 + n) as u8]
    } else {
        decimal_digits(n / 10).push((0x30 + n % 10) as u8)
    }
}

/// The decimal text of an integer: a minus sign for a negative number, then
/// the digits of its magnitude without leading zeros.
pub open spec fn decimal_text(value: int) -> Seq<u8> {
    if value < 0 {
        seq![0x2du8] + decimal_digits((-value) as nat)
    } else {
        decimal_digits(value as nat)
    }
}

/// The JSON text that `serde_json` writes for a string: the quoted string
/// with its escapes, as UTF-8.
pub uninterp spec fn json_string_text(value: Seq<char>) -> Seq<u8>;

/// Whether `email_address` accepts a string as an e-mail address.
pub uninterp spec fn email_address_valid(address: Seq<char>) -> bool;

/// A string without the whitespace at its two ends, as `str::trim` leaves it.
pub uninterp spec fn trimmed(text: Seq<char>) -> Seq<char>;

/// The lowercase form of a string, as `str::to_lowercase` gives it.
pub uninterp spec fn lowercased(text: Seq<char>) -> Seq<char>;

/// The uppercase form of a string, as `str::to_uppercase` gives it.
pub uninterp spec fn uppercased(text: Seq<char>) -> Seq<char>;

/// Whether `char::is_numeric` holds of a character.
pub uninterp spec fn numeric_char(c: char) -> bool;

/// `serde_json::to_vec` on an `i16`. The writer is a `Vec`, which cannot
/// fail, and the number is written by `itoa` as plain decimal text.
#[verifier::external_body]
pub(crate) fn json_number(value: i16) -> (text: Vec<u8>)
    ensures
        text@ == decimal_text(value as int),
{
    match serde_json::to_vec(&value) {
        Ok(text) => text,
        Err(_) => Vec::new(),
    }
}

/// `serde_json::to_vec` on a string. The result depends on the characters of
/// the string alone; it is known here only by its name.
#[verifier::external_body]
pub(crate) fn json_string(value: &str) -> (text: Vec<u8>)
    ensures
        text@ == json_string_text(value@),
{
    match serde_json::to_vec(value) {
        Ok(text) => text,
        Err(_) => Vec::new(),
    }
}

/// `email_address::EmailAddress::is_valid`: a parse of the address with the
/// default options, which reads nothing but the string.
#[verifier::external_body]
pub(crate) fn email_is_valid(address: &str) -> (valid: bool)
    ensures
        valid == email_address_valid(address@),
{
    email_address::EmailAddress::is_valid(address)
}

/// `std::str::from_utf8`: the bytes as a string slice exactly when they are
/// well-formed UTF-8, and then a slice over the same bytes.
#[verifier::external_body]
pub(crate) fn utf8_text(bytes: &[u8]) -> (text: Option<&str>)
    ensures
        text is Some <==> valid_utf8(bytes@),
        text is Some ==> text.unwrap().spec_bytes() == bytes@,
{
    match std::str::from_utf8(bytes) {
        Ok(text) => Some(text),
        Err(_) => None,
    }
}

/// `str::trim`.
#[verifier::external_body]
pub(crate) fn trim(text: &str) -> (inner: &str)
    ensures
        inner@ == trimmed(text@),
{
    text.trim()
}

/// `str::to_lowercase`.
#[verifier::external_body]
pub(crate) fn to_lowercase(text: &str) -> (lower: String)
    ensures
        lower@ == lowercased(text@),
{
    text.to_lowercase()
}

/// `str::to_uppercase`.
#[verifier::external_body]
pub(crate) fn to_uppercase(text: &str) -> (upper: String)
    ensures
        upper@ == uppercased(text@),
{
    text.to_uppercase()
}

/// `char::is_numeric`.
#[verifier::external_body]
pub(crate) fn is_numeric(c: char) -> (numeric: bool)
    ensures
        numeric == numeric_char(c),
{
    c.is_numeric()
}

} // verus!
