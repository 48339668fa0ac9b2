use vstd::prelude::*;
use vstd::string::StringSliceAdditionalSpecFns;

use crate::external::{is_numeric, numeric_char};
use crate::http::{validation_error, HttpFailResult};

verus! {

/// Least number of bytes in a password.
pub const PASSWORD_LENGTH: usize = 6;

/// A password that passed the rules of the service.
#[derive(Debug)]
pub struct PasswordHttpField(String);

impl View for PasswordHttpField {
    type V = Seq<char>;

    /// The characters of the password.
    closed spec fn view(&self) -> Seq<char> {
        self.0@
    }
}

/// Whether a text holds a numeric character.
pub open spec fn has_digit(text: Seq<char>) -> bool {
    exists|i: int| 0 <= i < text.len() && numeric_char(#[trigger] text[i])
}

/// Whether a text may serve as a password: six bytes or more, one of its
/// characters numeric.
pub open spec fn password_accepted(text: Seq<char>) -> bool {
    vstd::utf8::encode_utf8(text).len() >= 6 && has_digit(text)
}

/// The message for a password that is refused.
pub open spec fn password_refusal(text: Seq<char>) -> Seq<char> {
    if vstd::utf8::encode_utf8(text).len() < 6 {
        "Password must have at least 6 chars"@
    } else {
        "Password must have at least one digit"@
    }
}

/// Whether a text holds a numeric character.
pub fn contains_digit(src: &str) -> (digit_seen: bool)
    ensures
        digit_seen == has_digit(src@),
{
    let mut digit_seen = false;
    for c in chars: src.chars()
        invariant
            chars.seq() == src@,
            digit_seen <==> has_digit(src@.take(chars.index() as int)),
    {
        let ghost seen = src@.take(chars.index() as int);
        let ghost next = src@.take(chars.index() + 1);
        assert(next == seen.push(c));
        if is_numeric(c) {
            digit_seen = true;
            assert(numeric_char(next[chars.index() as int]));
        } else {
            assert forall|i: int| 0 <= i < next.len() && numeric_char(#[trigger] next[i])
                implies has_digit(seen) by {
                assert(next[i] == seen[i]);
            }
        }
        assert(has_digit(seen) ==> has_digit(next)) by {
            if has_digit(seen) {
                let i = choose|i: int| 0 <= i < seen.len() && numeric_char(#[trigger] seen[i]);
                assert(next[i] == seen[i]);
            }
        }
    }
    assert(src@.take(src@.len() as int) == src@);
    digit_seen
}

/// Decides on a password, given whether it holds a numeric character: the
/// length is judged first, the digit second.
pub fn accept_password(src: &str, digit_seen: bool) -> (value: Result<String, HttpFailResult>)
    ensures
        value is Ok <==> src.spec_bytes().len() >= 6 && digit_seen,
        value matches Ok(text) ==> text@ == src@,
        value matches Err(failure) ==> failure@ == validation_error(
            if src.spec_bytes().len() < 6 {
                "Password must have at least 6 chars"@
            } else {
                "Password must have at least one digit"@
            },
        ),
{
    if src.as_bytes().len() < PASSWORD_LENGTH {
        return Err(
            HttpFailResult::as_validation_error("Password must have at least 6 chars".to_owned()),
        );
    }
    if !digit_seen {
        return Err(
            HttpFailResult::as_validation_error("Password must have at least one digit".to_owned()),
        );
    }
    Ok(src.to_owned())
}

/// Checks a password against the rules.
pub fn process_value(src: &str) -> (value: Result<String, HttpFailResult>)
    ensures
        value is Ok <==> password_accepted(src@),
        value matches Ok(text) ==> text@ == src@,
        value matches Err(failure) ==> failure@ == validation_error(password_refusal(src@)),
{
    accept_password(src, contains_digit(src))
}

impl PasswordHttpField {
    #[verifier::type_invariant]
    spec fn passes_the_rules(self) -> bool {
        password_accepted(self.0@)
    }

    /// Takes a password if it passes the rules.
    pub fn new(src: &str) -> (field: Result<Self, HttpFailResult>)
        ensures
            field is Ok <==> password_accepted(src@),
            field matches Ok(password) ==> password@ == src@,
            field matches Err(failure) ==> failure@ == validation_error(password_refusal(src@)),
    {
        match process_value(src) {
            Ok(value) => Ok(PasswordHttpField(value)),
            Err(failure) => Err(failure),
        }
    }

    /// The password, which passes the rules.
    pub fn as_str(&self) -> (text: &str)
        ensures
            text@ == self@,
            password_accepted(text@),
    {
        proof {
            use_type_invariant(self);
        }
        self.0.as_str()
    }
}

} // verus!
