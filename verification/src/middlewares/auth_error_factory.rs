use vstd::prelude::*;
use vstd::string::StringSliceAdditionalSpecFns;

use super::auth_failed::{quiet_response, AuthErrorFactory};
use crate::api_result_status::{status_envelope, status_response, ApiHttpResult, ApiResultStatus};
use crate::documentation::{
    documented, schema1, schema2, DocumentedResult, HttpFieldType, HttpObjectStructure, HttpResult,
};
use crate::external::{decimal_text, json_number, json_string, json_string_text};
use crate::http::{HttpFailResult, WebContentType};
use crate::json::{object_text2, write_object2};

verus! {

/// The factory whose answers carry a status and, for a missing claim, the
/// name of the claim.
#[derive(Clone, Copy, Debug)]
pub struct AuthErrorFactoryWl;

/// The payload that names a claim which the caller lacks.
#[derive(Debug)]
pub struct AccessClaimRequired {
    pub result: ApiResultStatus,
    pub data: String,
}

/// The body `{"result":code,"data":text}`, where `data` is the JSON text of
/// the name of the claim.
pub open spec fn claim_envelope(result: ApiResultStatus, data: Seq<u8>) -> Seq<u8> {
    object_text2("result".spec_bytes(), decimal_text(result.wire_code()), "data".spec_bytes(), data)
}

/// Writes the body `{"result":code,"data":text}` from a status and the JSON
/// text of the name of a claim.
pub fn write_claim_envelope(result: ApiResultStatus, data: &[u8]) -> (text: Vec<u8>)
    ensures
        text@ == claim_envelope(result, data@),
{
    let code = json_number(result.code());
    write_object2("result", code.as_slice(), "data", data)
}

impl AccessClaimRequired {
    /// The body of the payload.
    pub fn to_json(&self) -> (text: Vec<u8>)
        ensures
            text@ == claim_envelope(self.result, json_string_text(self.data@)),
    {
        let data = json_string(self.data.as_str());
        write_claim_envelope(self.result, data.as_slice())
    }

    /// The schema of the payload.
    pub fn get_data_type() -> (schema: HttpObjectStructure)
        ensures
            schema@ == schema2(
                "AccessClaimRequired"@,
                "result"@,
                HttpFieldType::ResultStatus,
                "data"@,
                HttpFieldType::Text,
            ),
    {
        HttpObjectStructure::with_fields(
            "AccessClaimRequired",
            "result",
            HttpFieldType::ResultStatus,
            "data",
            HttpFieldType::Text,
        )
    }
}

/// The two responses that `AuthErrorFactoryWl` announces.
pub open spec fn claim_failures() -> Seq<DocumentedResult> {
    seq![
        DocumentedResult {
            http_code: 401,
            nullable: false,
            description: "Unauthenticated access"@,
            data_type: schema1("ApiHttpResult"@, "status"@, HttpFieldType::ResultStatus),
        },
        DocumentedResult {
            http_code: 403,
            nullable: false,
            description: "Unauthorized access"@,
            data_type: schema2(
                "AccessClaimRequired"@,
                "result"@,
                HttpFieldType::ResultStatus,
                "data"@,
                HttpFieldType::Text,
            ),
        },
    ]
}

impl AuthErrorFactory for AuthErrorFactoryWl {
    /// Token expired, in the bare envelope.
    fn get_not_authenticated(&self) -> (response: HttpFailResult)
        ensures
            response@ == status_response(
                ApiResultStatus::AccessTokenExpired,
                status_envelope(ApiResultStatus::AccessTokenExpired),
            ),
    {
        ApiResultStatus::AccessTokenExpired.into_fail_result()
    }

    /// Access claim required, under 403, with the name of the claim as data.
    fn get_not_authorized(&self, claim_name: String) -> (response: HttpFailResult)
        ensures
            response@ == quiet_response(
                403,
                claim_envelope(ApiResultStatus::AccessClaimRequired, json_string_text(claim_name@)),
            ),
    {
        let content = AccessClaimRequired {
            result: ApiResultStatus::AccessClaimRequired,
            data: claim_name,
        };
        HttpFailResult::new(WebContentType::Json, 403, content.to_json(), false, false)
    }

    fn get_global_http_fail_result_types(&self) -> (results: Option<Vec<HttpResult>>)
        ensures
            results is Some,
            documented(results.unwrap()@) == claim_failures(),
    {
        let mut results: Vec<HttpResult> = Vec::new();
        results.push(
            HttpResult {
                http_code: 401,
                nullable: false,
                description: "Unauthenticated access".to_owned(),
                data_type: ApiHttpResult::get_data_type(),
            },
        );
        results.push(
            HttpResult {
                http_code: 403,
                nullable: false,
                description: "Unauthorized access".to_owned(),
                data_type: AccessClaimRequired::get_data_type(),
            },
        );
        assert(documented(results@) == claim_failures());
        Some(results)
    }
}

} // verus!
