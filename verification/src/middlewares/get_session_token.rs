use vstd::prelude::*;
use vstd::slice::slice_subrange;
use vstd::string::StringSliceAdditionalSpecFns;
use vstd::utf8::{decode_utf8, valid_utf8};

use crate::external::utf8_text;
use crate::http::{header_value, Header, HttpContext};

verus! {

/// Name of the header that carries the session token.
pub const AUTH_HEADER: &'static str = "authorization";

/// Number of bytes a header value must have to carry a token at all.
pub const MIN_HEADER_LEN: usize = 6;

/// Offset at which a space marks the end of a scheme name.
pub const SCHEME_SEPARATOR_AT: usize = 6;

/// The token carried by the value of an `Authorization` header.
///
/// Values shorter than six bytes carry none. A space at offset six ends a
/// scheme name, and the token is what follows it. Any other value is the
/// token itself.
pub open spec fn token_of(value: Seq<u8>) -> Option<Seq<u8>> {
    if value.len() < 6 {
        None
    } else if value.len() > 6 && value[6] == 0x20u8 {
        Some(value.skip(7))
    } else {
        Some(value)
    }
}

/// The session token of a request with the given headers: the token of its
/// `Authorization` header, where there is one and its bytes are text.
pub open spec fn session_token(headers: Seq<Header>) -> Option<Seq<char>> {
    match header_value(headers, AUTH_HEADER.spec_bytes()) {
        Some(value) => match token_of(value) {
            Some(token) => if valid_utf8(token) {
                Some(decode_utf8(token))
            } else {
                None
            },
            None => None,
        },
        None => None,
    }
}

/// Extracts the token from the raw value of an `Authorization` header.
pub fn extract_token(src: &[u8]) -> (token: Option<&[u8]>)
    ensures
        token is Some <==> token_of(src@) is Some,
        token is Some ==> token.unwrap()@ == token_of(src@).unwrap(),
{
    if src.len() < MIN_HEADER_LEN {
        return None;
    }
    if src.len() > SCHEME_SEPARATOR_AT && src[SCHEME_SEPARATOR_AT] == 0x20u8 {
        let rest = slice_subrange(src, SCHEME_SEPARATOR_AT + 1, src.len());
        assert(rest@ == src@.skip(7));
        return Some(rest);
    }
    Some(src)
}

/// The three ways in which a header value is read: a value of seven bytes
/// or more with a space at offset six carries what follows the space, a
/// value of fewer than six bytes carries nothing, and any other value is the
/// token as it stands.
pub proof fn lemma_token_extraction(value: Seq<u8>)
    ensures
        value.len() >= 7 && value[6] == 0x20u8 ==> token_of(value) == Some(
            value.subrange(7, value.len() as int),
        ),
        value.len() < 6 ==> token_of(value) is None,
        value.len() >= 6 && !(value.len() >= 7 && value[6] == 0x20u8) ==> token_of(value) == Some(
            value,
        ),
{
}

/// Whatever six bytes stand before the space are taken for a scheme: the
/// token is what follows.
pub proof fn lemma_token_after_scheme(scheme: Seq<u8>, token: Seq<u8>)
    requires
        scheme.len() == 6,
    ensures
        token_of(scheme + seq![0x20u8] + token) == Some(token),
{
    let value = scheme + seq![0x20u8] + token;
    assert(value[6] == 0x20u8);
    assert(value.skip(7) == token);
}

/// Access to the session token that a request carries.
pub trait GetSessionToken {
    /// The token as characters, if the request carries one.
    spec fn token(&self) -> Option<Seq<char>>;

    fn get_session_token(&self) -> (token: Option<&str>)
        ensures
            token is Some <==> self.token() is Some,
            token is Some ==> token.unwrap()@ == self.token().unwrap(),
    ;
}

impl GetSessionToken for HttpContext {
    open spec fn token(&self) -> Option<Seq<char>> {
        session_token(self.request.headers@)
    }

    fn get_session_token(&self) -> (token: Option<&str>) {
        let auth_header = self.request.get_headers().try_get_case_insensitive(AUTH_HEADER)?;
        let token = extract_token(auth_header)?;
        let text = utf8_text(token);
        proof {
            if text is Some {
                vstd::utf8::encode_utf8_decode_utf8(text.unwrap()@);
            }
        }
        text
    }
}

} // verus!
