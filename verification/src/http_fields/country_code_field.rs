use vstd::prelude::*;
use vstd::std_specs::convert::FromSpecImpl;
use vstd::string::StringExecFns;

use crate::country_code::CountryCode;
use crate::external::{to_uppercase, trim, trimmed, uppercased};
use crate::http::{validation_error, HttpFailResult};

verus! {

/// A country code in capitals that names a country.
#[derive(Debug)]
pub struct CountryCodeHttpField(String);

impl View for CountryCodeHttpField {
    type V = Seq<char>;

    /// The characters of the code.
    closed spec fn view(&self) -> Seq<char> {
        self.0@
    }
}

/// The form in which a country code is checked and kept: without the
/// whitespace round it, in capitals.
pub open spec fn normalised_country(src: Seq<char>) -> Seq<char> {
    uppercased(trimmed(src))
}

/// The message for an input that names no country.
pub open spec fn not_a_country(src: Seq<char>) -> Seq<char> {
    "Country code "@ + src + " is not valid"@
}

/// Decides on a country code in its kept form: it is taken if it names a
/// country, and refused with a message that quotes the input as it came.
pub fn accept_country(src: &str, value: String) -> (checked: Result<String, HttpFailResult>)
    ensures
        checked is Ok <==> CountryCode::named(value@) is Some,
        checked matches Ok(text) ==> text == value,
        checked matches Err(failure) ==> failure@ == validation_error(not_a_country(src@)),
{
    let parsed = CountryCode::parse(value.as_str());
    if parsed.is_err() {
        let mut message = "Country code ".to_owned();
        message.append(src);
        message.append(" is not valid");
        return Err(HttpFailResult::as_validation_error(message));
    }
    Ok(value)
}

/// Brings a country code into its kept form and checks it.
pub fn process_value(src: &str) -> (value: Result<String, HttpFailResult>)
    ensures
        value is Ok <==> CountryCode::named(normalised_country(src@)) is Some,
        value matches Ok(text) ==> text@ == normalised_country(src@),
        value matches Err(failure) ==> failure@ == validation_error(not_a_country(src@)),
{
    let value = to_uppercase(trim(src));
    accept_country(src, value)
}

impl CountryCodeHttpField {
    #[verifier::type_invariant]
    spec fn names_a_country(self) -> bool {
        CountryCode::named(self.0@) is Some
    }

    /// Takes a country code if it names a country.
    pub fn new(src: &str) -> (field: Result<Self, HttpFailResult>)
        ensures
            field is Ok <==> CountryCode::named(normalised_country(src@)) is Some,
            field matches Ok(code) ==> code@ == normalised_country(src@),
            field matches Err(failure) ==> failure@ == validation_error(not_a_country(src@)),
    {
        match process_value(src) {
            Ok(value) => Ok(CountryCodeHttpField(value)),
            Err(failure) => Err(failure),
        }
    }

    /// The code, which names a country.
    pub fn as_str(&self) -> (text: &str)
        ensures
            text@ == self@,
            CountryCode::named(text@) is Some,
    {
        proof {
            use_type_invariant(self);
        }
        self.0.as_str()
    }
}

impl From<CountryCodeHttpField> for CountryCode {
    fn from(field: CountryCodeHttpField) -> (country: CountryCode) {
        proof {
            use_type_invariant(&field);
        }
        CountryCode::parse(field.0.as_str()).unwrap()
    }
}

impl FromSpecImpl<CountryCodeHttpField> for CountryCode {
    open spec fn obeys_from_spec() -> bool {
        true
    }

    /// The country that the code names.
    open spec fn from_spec(field: CountryCodeHttpField) -> CountryCode {
        CountryCode::named(field@).unwrap()
    }
}

} // verus!
