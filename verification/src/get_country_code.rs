use vstd::prelude::*;
use vstd::string::StringSliceAdditionalSpecFns;
use vstd::utf8::{decode_utf8, valid_utf8};

use crate::external::utf8_text;
use crate::http::{header_value, Header, HttpRequest};

verus! {

/// Name of the header in which the edge of the network reports the country
/// that a request came from.
pub const COUNTRY_HEADER: &'static str = "cf-ipcountry";

/// The country that the headers of a request report: the value of the
/// country header, where there is one and its bytes are text.
pub open spec fn reported_country(headers: Seq<Header>) -> Option<Seq<char>> {
    match header_value(headers, COUNTRY_HEADER.spec_bytes()) {
        Some(value) => if valid_utf8(value) {
            Some(decode_utf8(value))
        } else {
            None
        },
        None => None,
    }
}

/// Access to the country that a request came from.
pub trait GetCountryCode {
    /// The country as characters, if the request reports one.
    spec fn country_code(&self) -> Option<Seq<char>>;

    fn get_country_code(&self) -> (country: Option<&str>)
        ensures
            country is Some <==> self.country_code() is Some,
            country is Some ==> country.unwrap()@ == self.country_code().unwrap(),
    ;
}

impl GetCountryCode for HttpRequest {
    open spec fn country_code(&self) -> Option<Seq<char>> {
        reported_country(self.headers@)
    }

    fn get_country_code(&self) -> (country: Option<&str>) {
        let value = self.get_headers().try_get_case_insensitive(COUNTRY_HEADER)?;
        let text = utf8_text(value);
        proof {
            if text is Some {
                vstd::utf8::encode_utf8_decode_utf8(text.unwrap()@);
            }
        }
        text
    }
}

} // verus!
