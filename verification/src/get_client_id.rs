use vstd::prelude::*;
use vstd::string::StrSliceExecFns;
use vstd::string::StringSliceAdditionalSpecFns;

use crate::http::{FailResult, HttpContext, HttpFailResult, RequestCredentials, WebContentType};

verus! {

/// The answer to a request for the caller's identity where nobody has
/// vouched for the caller: plain text under 401, kept out of telemetry.
pub open spec fn unauthenticated() -> FailResult {
    FailResult {
        content_type: WebContentType::Text,
        status_code: 401,
        content: "Unauthenticated".spec_bytes(),
        write_telemetry: false,
        write_to_log: false,
    }
}

/// The answer to a request for the identity of a caller that nobody has
/// vouched for.
pub fn not_authenticated() -> (failure: HttpFailResult)
    ensures
        failure@ == unauthenticated(),
{
    HttpFailResult::new(WebContentType::Text, 401, "Unauthenticated".as_bytes_vec(), false, false)
}

/// Access to the identity of the caller of a request.
pub trait GetClientId {
    /// The identity as characters, if the request has credentials.
    spec fn client_id(&self) -> Option<Seq<char>>;

    fn get_client_id(&self) -> (id: Result<&str, HttpFailResult>)
        ensures
            id is Ok <==> self.client_id() is Some,
            id matches Ok(id) ==> id@ == self.client_id().unwrap(),
            id matches Err(failure) ==> failure@ == unauthenticated(),
    ;
}

impl GetClientId for HttpContext {
    open spec fn client_id(&self) -> Option<Seq<char>> {
        match self.credentials {
            Some(credentials) => Some(credentials.identity()),
            None => None,
        }
    }

    fn get_client_id(&self) -> (id: Result<&str, HttpFailResult>) {
        if let Some(credentials) = self.credentials.as_ref() {
            Ok(credentials.get_id())
        } else {
            Err(not_authenticated())
        }
    }
}

} // verus!
