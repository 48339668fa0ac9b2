use vstd::prelude::*;

use crate::external::{
    email_address_valid, email_is_valid, lowercased, to_lowercase, trim, trimmed,
};
use crate::http::{validation_error, HttpFailResult};

verus! {

/// An e-mail address in the form in which the service keeps it.
#[derive(Debug)]
pub struct EmailHttpField(String);

impl View for EmailHttpField {
    type V = Seq<char>;

    /// The characters of the address.
    closed spec fn view(&self) -> Seq<char> {
        self.0@
    }
}

/// The form in which an address is checked and kept: without the whitespace
/// round it, in small letters.
pub open spec fn normalised_email(src: Seq<char>) -> Seq<char> {
    lowercased(trimmed(src))
}

/// Decides on an address in its kept form, given whether it is well-formed.
pub fn accept_email(email: String, valid: bool) -> (value: Result<String, HttpFailResult>)
    ensures
        value is Ok <==> valid,
        value matches Ok(text) ==> text == email,
        value matches Err(failure) ==> failure@ == validation_error("Email is not valid"@),
{
    if !valid {
        return Err(HttpFailResult::as_validation_error("Email is not valid".to_owned()));
    }
    Ok(email)
}

/// Brings an address into its kept form and checks it.
pub fn process_value(src: &str) -> (value: Result<String, HttpFailResult>)
    ensures
        value is Ok <==> email_address_valid(normalised_email(src@)),
        value matches Ok(text) ==> text@ == normalised_email(src@),
        value matches Err(failure) ==> failure@ == validation_error("Email is not valid"@),
{
    let email = to_lowercase(trim(src));
    let valid = email_is_valid(email.as_str());
    accept_email(email, valid)
}

impl EmailHttpField {
    #[verifier::type_invariant]
    spec fn holds_an_address(self) -> bool {
        email_address_valid(self.0@)
    }

    /// Takes an address if it is well-formed.
    pub fn new(src: &str) -> (field: Result<Self, HttpFailResult>)
        ensures
            field is Ok <==> email_address_valid(normalised_email(src@)),
            field matches Ok(email) ==> email@ == normalised_email(src@),
            field matches Err(failure) ==> failure@ == validation_error("Email is not valid"@),
    {
        match process_value(src) {
            Ok(value) => Ok(EmailHttpField(value)),
            Err(failure) => Err(failure),
        }
    }

    /// The address, which is well-formed.
    pub fn as_str(&self) -> (text: &str)
        ensures
            text@ == self@,
            email_address_valid(text@),
    {
        proof {
            use_type_invariant(self);
        }
        self.0.as_str()
    }
}

} // verus!
