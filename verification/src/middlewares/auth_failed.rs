use vstd::prelude::*;
use vstd::string::StringSliceAdditionalSpecFns;

use super::auth_error_factory::{claim_envelope, AccessClaimRequired};
use crate::api_result_status::ApiResultStatus;
use crate::documentation::{
    documented, schema2, DocumentedResult, HttpFieldType, HttpObjectStructure, HttpResult,
};
use crate::external::{decimal_text, json_number, json_string, json_string_text};
use crate::http::{FailResult, HttpFailResult, WebContentType};
use crate::json::{object_text2, write_object2};

verus! {

/// The body `{"result":code,"description":text}`, where `description` is the
/// JSON text of the description.
pub open spec fn described_envelope(result: ApiResultStatus, description: Seq<u8>) -> Seq<u8> {
    object_text2(
        "result".spec_bytes(),
        decimal_text(result.wire_code()),
        "description".spec_bytes(),
        description,
    )
}

/// A JSON response under the given transport code that is kept out of
/// telemetry and out of the log.
pub open spec fn quiet_response(status_code: int, content: Seq<u8>) -> FailResult {
    FailResult {
        content_type: WebContentType::Json,
        status_code,
        content,
        write_telemetry: false,
        write_to_log: false,
    }
}

/// Writes the body `{"result":code,"description":text}` from a status and
/// the JSON text of a description.
pub fn write_described_envelope(result: ApiResultStatus, description: &[u8]) -> (text: Vec<u8>)
    ensures
        text@ == described_envelope(result, description@),
{
    let code = json_number(result.code());
    write_object2("result", code.as_slice(), "description", description)
}

/// The answer to a request whose caller could not be told apart.
#[derive(Debug)]
pub struct AuthenticationFailedApiResponse {
    pub result: ApiResultStatus,
    pub description: String,
}

/// The answer to a request whose caller lacks a permission.
#[derive(Debug)]
pub struct AuthorizationFailedApiResponse {
    pub result: ApiResultStatus,
    pub description: String,
}

impl AuthorizationFailedApiResponse {
    /// The response under transport code 403 that reports `result` with a
    /// description.
    pub fn new(result: ApiResultStatus, description: String) -> (response: HttpFailResult)
        ensures
            response@ == quiet_response(
                403,
                described_envelope(result, json_string_text(description@)),
            ),
    {
        let result = AuthorizationFailedApiResponse { result, description };
        let content = result.to_json();
        HttpFailResult::new(WebContentType::Json, 403, content, false, false)
    }

    /// The body of the answer.
    pub fn to_json(&self) -> (text: Vec<u8>)
        ensures
            text@ == described_envelope(self.result, json_string_text(self.description@)),
    {
        let description = json_string(self.description.as_str());
        write_described_envelope(self.result, description.as_slice())
    }

    pub fn default_desc() -> (description: String)
        ensures
            description@ == "Authorization required"@,
    {
        "Authorization required".to_owned()
    }

    /// The schema of the answer.
    pub fn get_http_data_structure() -> (schema: HttpObjectStructure)
        ensures
            schema@ == schema2(
                "AuthorizationFailedApiResponse"@,
                "result"@,
                HttpFieldType::ResultStatus,
                "description"@,
                HttpFieldType::Text,
            ),
    {
        HttpObjectStructure::with_fields(
            "AuthorizationFailedApiResponse",
            "result",
            HttpFieldType::ResultStatus,
            "description",
            HttpFieldType::Text,
        )
    }
}

impl AuthenticationFailedApiResponse {
    /// The response under transport code 401 that reports `result` with a
    /// description.
    pub fn new(result: ApiResultStatus, description: String) -> (response: HttpFailResult)
        ensures
            response@ == quiet_response(
                401,
                described_envelope(result, json_string_text(description@)),
            ),
    {
        let result = AuthenticationFailedApiResponse { result, description };
        let content = result.to_json();
        HttpFailResult::new(WebContentType::Json, 401, content, false, false)
    }

    /// The body of the answer.
    pub fn to_json(&self) -> (text: Vec<u8>)
        ensures
            text@ == described_envelope(self.result, json_string_text(self.description@)),
    {
        let description = json_string(self.description.as_str());
        write_described_envelope(self.result, description.as_slice())
    }

    pub fn default_desc() -> (description: String)
        ensures
            description@ == "Authentication required"@,
    {
        "Authentication required".to_owned()
    }

    /// The schema of the answer.
    pub fn get_http_data_structure() -> (schema: HttpObjectStructure)
        ensures
            schema@ == schema2(
                "AuthenticationFailedApiResponse"@,
                "result"@,
                HttpFieldType::ResultStatus,
                "description"@,
                HttpFieldType::Text,
            ),
    {
        HttpObjectStructure::with_fields(
            "AuthenticationFailedApiResponse",
            "result",
            HttpFieldType::ResultStatus,
            "description",
            HttpFieldType::Text,
        )
    }
}

/// What the authorization layer asks of a factory of failure responses.
pub trait AuthErrorFactory {
    /// The answer to a request that needs a caller and has none.
    fn get_not_authenticated(&self) -> (response: HttpFailResult)
        ensures
            response@.status_code == 401,
    ;

    /// The answer to a request whose caller lacks the claim `claim_name`.
    fn get_not_authorized(&self, claim_name: String) -> (response: HttpFailResult)
        ensures
            response@.status_code == 403,
    ;

    /// The responses that every protected route may give.
    fn get_global_http_fail_result_types(&self) -> (results: Option<Vec<HttpResult>>);
}

/// The factory whose answers carry a status and, with it, a description
/// where the caller is unknown and the name of the claim where one is
/// missing.
#[derive(Clone, Copy, Debug)]
pub struct AuthFailResponseFactory;

/// The two responses that `AuthFailResponseFactory` announces.
pub open spec fn described_failures() -> Seq<DocumentedResult> {
    seq![
        DocumentedResult {
            http_code: 401,
            nullable: false,
            description: "Authentication required"@,
            data_type: schema2(
                "AuthenticationFailedApiResponse"@,
                "result"@,
                HttpFieldType::ResultStatus,
                "description"@,
                HttpFieldType::Text,
            ),
        },
        DocumentedResult {
            http_code: 403,
            nullable: false,
            description: "Authorization required"@,
            data_type: schema2(
                "AccessClaimRequired"@,
                "result"@,
                HttpFieldType::ResultStatus,
                "data"@,
                HttpFieldType::Text,
            ),
        },
    ]
}

impl AuthErrorFactory for AuthFailResponseFactory {
    /// Token expired, under 401, with the default description.
    fn get_not_authenticated(&self) -> (response: HttpFailResult)
        ensures
            response@ == quiet_response(
                401,
                described_envelope(
                    ApiResultStatus::AccessTokenExpired,
                    json_string_text("Authentication required"@),
                ),
            ),
    {
        return AuthenticationFailedApiResponse::new(
            ApiResultStatus::AccessTokenExpired,
            AuthenticationFailedApiResponse::default_desc(),
        );
    }

    /// Access claim required, under 403, with the name of the claim as data.
    fn get_not_authorized(&self, claim_name: String) -> (response: HttpFailResult)
        ensures
            response@ == quiet_response(
                403,
                claim_envelope(ApiResultStatus::AccessClaimRequired, json_string_text(claim_name@)),
            ),
    {
        let content = AccessClaimRequired {
            result: ApiResultStatus::AccessClaimRequired,
            data: claim_name,
        };
        HttpFailResult::new(WebContentType::Json, 403, content.to_json(), false, false)
    }

    fn get_global_http_fail_result_types(&self) -> (results: Option<Vec<HttpResult>>)
        ensures
            results is Some,
            documented(results.unwrap()@) == described_failures(),
    {
        let authentication_http_structure =
            AuthenticationFailedApiResponse::get_http_data_structure();
        let authorization_http_structure = AccessClaimRequired::get_data_type();
        let mut results: Vec<HttpResult> = Vec::new();
        results.push(
            HttpResult {
                http_code: 401,
                nullable: false,
                description: AuthenticationFailedApiResponse::default_desc(),
                data_type: authentication_http_structure,
            },
        );
        results.push(
            HttpResult {
                http_code: 403,
                nullable: false,
                description: AuthorizationFailedApiResponse::default_desc(),
                data_type: authorization_http_structure,
            },
        );
        assert(documented(results@) == described_failures());
        Some(results)
    }
}

} // verus!
