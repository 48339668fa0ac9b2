//! The values that pass between this library and the HTTP server around it.
use vstd::prelude::*;
use vstd::string::StrSliceExecFns;
use vstd::string::StringSliceAdditionalSpecFns;

use crate::date_time::DateTimeAsMicroseconds;
use crate::middlewares::TradingPlatformRequestCredentials;

verus! {

/// Content type of a response body.
#[derive(Clone, Copy, Debug, PartialEq, Eq, Structural)]
pub enum WebContentType {
    Json,
    Text,
}

/// A response that ends a request without success.
#[derive(Debug)]
pub struct HttpFailResult {
    pub content_type: WebContentType,
    pub status_code: u16,
    pub content: Vec<u8>,
    pub write_telemetry: bool,
    pub write_to_log: bool,
}

/// What a failure response holds, as plain values.
pub ghost struct FailResult {
    pub content_type: WebContentType,
    pub status_code: int,
    pub content: Seq<u8>,
    pub write_telemetry: bool,
    pub write_to_log: bool,
}

impl View for HttpFailResult {
    type V = FailResult;

    open spec fn view(&self) -> FailResult {
        FailResult {
            content_type: self.content_type,
            status_code: self.status_code as int,
            content: self.content@,
            write_telemetry: self.write_telemetry,
            write_to_log: self.write_to_log,
        }
    }
}

/// Transport status code of a request that failed validation.
pub const VALIDATION_ERROR_CODE: u16 = 400;

/// The response for an input that failed validation: the message as plain
/// text under status 400, recorded in telemetry and in the log.
pub open spec fn validation_error(text: Seq<char>) -> FailResult {
    FailResult {
        content_type: WebContentType::Text,
        status_code: 400,
        content: vstd::utf8::encode_utf8(text),
        write_telemetry: true,
        write_to_log: true,
    }
}

impl HttpFailResult {
    pub fn new(
        content_type: WebContentType,
        status_code: u16,
        content: Vec<u8>,
        write_telemetry: bool,
        write_to_log: bool,
    ) -> (result: Self)
        ensures
            result@ == (FailResult {
                content_type,
                status_code: status_code as int,
                content: content@,
                write_telemetry,
                write_to_log,
            }),
    {
        HttpFailResult { content_type, status_code, content, write_telemetry, write_to_log }
    }

    /// The response for an input that failed validation.
    pub fn as_validation_error(text: String) -> (result: Self)
        ensures
            result@ == validation_error(text@),
    {
        HttpFailResult {
            content_type: WebContentType::Text,
            status_code: VALIDATION_ERROR_CODE,
            content: text.as_str().as_bytes_vec(),
            write_telemetry: true,
            write_to_log: true,
        }
    }
}

/// One header of a request: its name and the raw bytes of its value.
#[derive(Debug)]
pub struct HttpHeader {
    pub name: String,
    pub value: Vec<u8>,
}

/// A header as plain values: the bytes of its name and of its value.
pub ghost struct Header {
    pub name: Seq<u8>,
    pub value: Seq<u8>,
}

impl View for HttpHeader {
    type V = Header;

    open spec fn view(&self) -> Header {
        Header { name: vstd::utf8::encode_utf8(self.name@), value: self.value@ }
    }
}

/// A byte with an ASCII capital letter turned into its small letter.
pub open spec fn ascii_lower(byte: u8) -> u8 {
    if 0x41 <= byte <= 0x5a {
        (byte + 0x20) as u8
    } else {
        byte
    }
}

/// Two header names are the same but for the case of their ASCII letters.
pub open spec fn same_name(a: Seq<u8>, b: Seq<u8>) -> bool {
    a.len() == b.len() && forall|i: int| 0 <= i < a.len() ==> ascii_lower(#[trigger] a[i])
        == ascii_lower(b[i])
}

/// The value of the first header that goes by `name`, whatever the case of
/// its letters.
pub open spec fn header_value(headers: Seq<Header>, name: Seq<u8>) -> Option<Seq<u8>>
    decreases headers.len(),
{
    if headers.len() == 0 {
        None
    } else if same_name(headers[0].name, name) {
        Some(headers[0].value)
    } else {
        header_value(headers.drop_first(), name)
    }
}

/// The lookup of a header does not tell names apart that differ in the case
/// of their letters only.
pub proof fn lemma_header_lookup_ignores_case(headers: Seq<Header>, a: Seq<u8>, b: Seq<u8>)
    requires
        same_name(a, b),
    ensures
        header_value(headers, a) == header_value(headers, b),
    decreases headers.len(),
{
    if headers.len() > 0 {
        let name = headers[0].name;
        assert(same_name(name, a) == same_name(name, b)) by {
            if same_name(name, a) {
                assert forall|i: int| 0 <= i < name.len() implies ascii_lower(#[trigger] name[i])
                    == ascii_lower(b[i]) by {
                    assert(ascii_lower(a[i]) == ascii_lower(b[i]));
                }
            }
            if same_name(name, b) {
                assert forall|i: int| 0 <= i < name.len() implies ascii_lower(#[trigger] name[i])
                    == ascii_lower(a[i]) by {
                    assert(ascii_lower(a[i]) == ascii_lower(b[i]));
                }
            }
        }
        lemma_header_lookup_ignores_case(headers.drop_first(), a, b);
    }
}

/// The headers of a list, each as plain values, in the order of the list.
pub open spec fn headers_of(list: Seq<HttpHeader>) -> Seq<Header> {
    list.map_values(|header: HttpHeader| header@)
}

fn names_match(a: &[u8], b: &[u8]) -> (same: bool)
    ensures
        same == same_name(a@, b@),
{
    if a.len() != b.len() {
        return false;
    }
    let mut i: usize = 0;
    while i < a.len()
        invariant
            i <= a@.len(),
            a@.len() == b@.len(),
            forall|k: int| 0 <= k < i ==> ascii_lower(#[trigger] a@[k]) == ascii_lower(b@[k]),
        decreases a@.len() - i,
    {
        if to_ascii_lower(a[i]) != to_ascii_lower(b[i]) {
            return false;
        }
        i += 1;
    }
    true
}

fn to_ascii_lower(byte: u8) -> (lower: u8)
    ensures
        lower == ascii_lower(byte),
{
    if 0x41 <= byte && byte <= 0x5a {
        byte + 0x20
    } else {
        byte
    }
}

/// The headers of a request, in the order in which they arrived.
#[derive(Debug)]
pub struct HttpRequestHeaders {
    pub entries: Vec<HttpHeader>,
}

impl View for HttpRequestHeaders {
    type V = Seq<Header>;

    open spec fn view(&self) -> Seq<Header> {
        headers_of(self.entries@)
    }
}

impl HttpRequestHeaders {
    pub fn new() -> (headers: Self)
        ensures
            headers@ == Seq::<Header>::empty(),
    {
        let headers = HttpRequestHeaders { entries: Vec::new() };
        assert(headers@ == Seq::<Header>::empty());
        headers
    }

    /// Adds a header behind those that are there.
    pub fn add(&mut self, name: String, value: Vec<u8>)
        ensures
            final(self)@ == old(self)@.push(
                Header { name: vstd::utf8::encode_utf8(name@), value: value@ },
            ),
    {
        self.entries.push(HttpHeader { name, value });
        assert(self@ == old(self)@.push(
            Header { name: vstd::utf8::encode_utf8(name@), value: value@ },
        ));
    }

    /// The raw value of the first header that goes by `name`, whatever the
    /// case of its letters.
    pub fn try_get_case_insensitive(&self, name: &str) -> (value: Option<&[u8]>)
        ensures
            value is Some <==> header_value(self@, name.spec_bytes()) is Some,
            value is Some ==> value.unwrap()@ == header_value(self@, name.spec_bytes()).unwrap(),
    {
        let wanted = name.as_bytes();
        let mut i: usize = 0;
        assert(self@.skip(0) == self@);
        while i < self.entries.len()
            invariant
                i <= self.entries@.len(),
                wanted@ == name.spec_bytes(),
                header_value(self@, wanted@) == header_value(self@.skip(i as int), wanted@),
            decreases self.entries@.len() - i,
        {
            let header = &self.entries[i];
            if names_match(header.name.as_str().as_bytes(), wanted) {
                assert(self@.skip(i as int)[0] == header@);
                return Some(header.value.as_slice());
            }
            assert(self@.skip(i as int).drop_first() == self@.skip(i + 1));
            assert(self@.skip(i as int)[0] == self.entries@[i as int]@);
            i += 1;
        }
        assert(self@.skip(i as int).len() == 0);
        None
    }
}

/// What this library reads of a request.
#[derive(Debug)]
pub struct HttpRequest {
    pub headers: HttpRequestHeaders,
}

impl HttpRequest {
    pub fn new(headers: HttpRequestHeaders) -> (request: Self)
        ensures
            request.headers == headers,
    {
        HttpRequest { headers }
    }

    pub fn get_headers(&self) -> (headers: &HttpRequestHeaders)
        ensures
            headers == self.headers,
    {
        &self.headers
    }
}

/// A request on its way through the middlewares, with the slot for the
/// credentials of its caller.
pub struct HttpContext {
    pub request: HttpRequest,
    pub credentials: Option<TradingPlatformRequestCredentials>,
}

impl HttpContext {
    /// A request that nobody has vouched for yet.
    pub fn new(request: HttpRequest) -> (ctx: Self)
        ensures
            ctx.request == request,
            ctx.credentials is None,
    {
        HttpContext { request, credentials: None }
    }
}

/// A permission as the authorization layer reads it.
#[derive(Debug)]
pub struct RequestClaim<'s> {
    pub id: &'s str,
    pub expires: DateTimeAsMicroseconds,
    pub allowed_ips: Option<Vec<String>>,
}

/// A permission as plain values. `restricted` says whether the permission
/// is bound to a list of addresses.
pub ghost struct Permission {
    pub id: Seq<char>,
    pub expires: int,
    pub restricted: bool,
}

impl<'s> View for RequestClaim<'s> {
    type V = Permission;

    open spec fn view(&self) -> Permission {
        Permission {
            id: self.id@,
            expires: self.expires.unix_microseconds as int,
            restricted: self.allowed_ips is Some,
        }
    }
}

/// The identity and the permissions of the caller of a request.
pub trait RequestCredentials {
    /// The identity as characters.
    spec fn identity(&self) -> Seq<char>;

    /// The permissions, if the caller has any list of them.
    spec fn permissions(&self) -> Option<Seq<Permission>>;

    fn get_id(&self) -> (id: &str)
        ensures
            id@ == self.identity(),
    ;

    fn get_claims<'s>(&'s self) -> (claims: Option<Vec<RequestClaim<'s>>>)
        ensures
            claims is Some <==> self.permissions() is Some,
            claims is Some ==> permissions_of(claims.unwrap()@) == self.permissions().unwrap(),
    ;
}

/// The permissions of a list, each as plain values, in the order of the list.
pub open spec fn permissions_of(list: Seq<RequestClaim>) -> Seq<Permission> {
    list.map_values(|claim: RequestClaim| claim@)
}

} // verus!
