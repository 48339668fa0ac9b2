use rest_api_auth::configure_rest_api_server::ControllersAuthorization;
use rest_api_auth::documentation::{HttpFieldType, HttpResult};
use rest_api_auth::http::{HttpFailResult, WebContentType};
use rest_api_auth::json::{append_bytes, write_null, write_object, write_object2};
use rest_api_auth::middlewares::{
    write_claim_envelope, write_described_envelope, AccessClaimRequired, AuthErrorFactory,
    AuthErrorFactoryWl, AuthFailResponseFactory, AuthenticationFailedApiResponse,
    AuthorizationFailedApiResponse,
};
use rest_api_auth::{
    configure_rest_api_server, configure_rest_api_server_with_no_auth_middleware, ApiHttpResult,
    ApiResultStatus,
};

fn shape(result: &HttpResult) -> (u16, bool, String, String, Vec<(String, HttpFieldType, bool)>) {
    (
        result.http_code,
        result.nullable,
        result.description.clone(),
        result.data_type.struct_id.clone(),
        result
            .data_type
            .fields
            .iter()
            .map(|field| (field.name.clone(), field.data_type, field.required))
            .collect(),
    )
}

#[test]
fn default_descriptions() {
    assert_eq!(AuthenticationFailedApiResponse::default_desc(), "Authentication required");
    assert_eq!(AuthorizationFailedApiResponse::default_desc(), "Authorization required");
}

#[test]
fn authentication_failure_travels_under_401() {
    let failure = AuthenticationFailedApiResponse::new(
        ApiResultStatus::TokenIsInvalid,
        "no such token".to_string(),
    );
    assert_eq!(failure.status_code, 401);
    assert_eq!(failure.content_type, WebContentType::Json);
    assert_eq!(
        failure.content,
        "{\"result\":-1,\"description\":\"no such token\"}".as_bytes().to_vec()
    );
    assert!(!failure.write_telemetry);
    assert!(!failure.write_to_log);
}

#[test]
fn authorization_failure_travels_under_403() {
    let failure = AuthorizationFailedApiResponse::new(
        ApiResultStatus::AccessClaimRequired,
        "withdraw".to_string(),
    );
    assert_eq!(failure.status_code, 403);
    assert_eq!(failure.content_type, WebContentType::Json);
    assert_eq!(
        failure.content,
        "{\"result\":-998,\"description\":\"withdraw\"}".as_bytes().to_vec()
    );
    assert!(!failure.write_telemetry);
    assert!(!failure.write_to_log);
}

#[test]
fn description_is_escaped_as_json() {
    let failure = AuthorizationFailedApiResponse::new(
        ApiResultStatus::AccessClaimRequired,
        "say \"hi\"\\\n\u{1}\u{e9}".to_string(),
    );
    assert_eq!(
        failure.content,
        "{\"result\":-998,\"description\":\"say \\\"hi\\\"\\\\\\n\\u0001\u{e9}\"}"
            .as_bytes()
            .to_vec()
    );
    let body: serde_json::Value = serde_json::from_slice(&failure.content).unwrap();
    assert_eq!(
        body.get("description").and_then(|text| text.as_str()),
        Some("say \"hi\"\\\n\u{1}\u{e9}")
    );
}

#[test]
fn claim_name_is_escaped_as_json() {
    let failure = AuthErrorFactoryWl.get_not_authorized("a\"b".to_string());
    assert_eq!(failure.status_code, 403);
    assert_eq!(failure.content, "{\"result\":-998,\"data\":\"a\\\"b\"}".as_bytes().to_vec());
    let payload =
        AccessClaimRequired { result: ApiResultStatus::AccessClaimRequired, data: "".to_string() };
    assert_eq!(payload.to_json(), "{\"result\":-998,\"data\":\"\"}".as_bytes().to_vec());
}

#[test]
fn envelopes_are_framed_from_encoded_values() {
    assert_eq!(
        write_described_envelope(ApiResultStatus::UserExists, "\"x\"".as_bytes()),
        "{\"result\":-4,\"description\":\"x\"}".as_bytes().to_vec()
    );
    assert_eq!(
        write_claim_envelope(ApiResultStatus::Success, "\"y\"".as_bytes()),
        "{\"result\":0,\"data\":\"y\"}".as_bytes().to_vec()
    );
    assert_eq!(write_object("k", "1".as_bytes()), "{\"k\":1}".as_bytes().to_vec());
    assert_eq!(
        write_object2("a", "1".as_bytes(), "b", "[]".as_bytes()),
        "{\"a\":1,\"b\":[]}".as_bytes().to_vec()
    );
    assert_eq!(write_null(), "null".as_bytes().to_vec());
    let mut out = vec![1u8];
    append_bytes(&mut out, &[2, 3]);
    append_bytes(&mut out, &[]);
    assert_eq!(out, vec![1, 2, 3]);
}

#[test]
fn described_factory_answers() {
    let failure = AuthFailResponseFactory.get_not_authenticated();
    assert_eq!(failure.status_code, 401);
    assert_eq!(
        failure.content,
        "{\"result\":-2,\"description\":\"Authentication required\"}".as_bytes().to_vec()
    );
    assert!(!failure.write_telemetry);
    let failure = AuthFailResponseFactory.get_not_authorized("trade".to_string());
    assert_eq!(failure.status_code, 403);
    assert_eq!(failure.content_type, WebContentType::Json);
    assert_eq!(failure.content, "{\"result\":-998,\"data\":\"trade\"}".as_bytes().to_vec());
    assert!(!failure.write_telemetry);
    assert!(!failure.write_to_log);
    let failure = AuthFailResponseFactory.get_not_authorized("a\"b".to_string());
    assert_eq!(failure.content, "{\"result\":-998,\"data\":\"a\\\"b\"}".as_bytes().to_vec());
}

#[test]
fn described_factory_announces_its_two_answers() {
    let results = AuthFailResponseFactory.get_global_http_fail_result_types().unwrap();
    let shapes: Vec<_> = results.iter().map(shape).collect();
    assert_eq!(
        shapes,
        vec![
            (
                401,
                false,
                "Authentication required".to_string(),
                "AuthenticationFailedApiResponse".to_string(),
                vec![
                    ("result".to_string(), HttpFieldType::ResultStatus, true),
                    ("description".to_string(), HttpFieldType::Text, true),
                ],
            ),
            (
                403,
                false,
                "Authorization required".to_string(),
                "AccessClaimRequired".to_string(),
                vec![
                    ("result".to_string(), HttpFieldType::ResultStatus, true),
                    ("data".to_string(), HttpFieldType::Text, true),
                ],
            ),
        ]
    );
}

#[test]
fn claim_factory_announces_its_two_answers() {
    let results = AuthErrorFactoryWl.get_global_http_fail_result_types().unwrap();
    let shapes: Vec<_> = results.iter().map(shape).collect();
    assert_eq!(
        shapes,
        vec![
            (
                401,
                false,
                "Unauthenticated access".to_string(),
                "ApiHttpResult".to_string(),
                vec![("status".to_string(), HttpFieldType::ResultStatus, true)],
            ),
            (
                403,
                false,
                "Unauthorized access".to_string(),
                "AccessClaimRequired".to_string(),
                vec![
                    ("result".to_string(), HttpFieldType::ResultStatus, true),
                    ("data".to_string(), HttpFieldType::Text, true),
                ],
            ),
        ]
    );
    assert_eq!(ApiHttpResult::get_data_type().struct_id, "ApiHttpResult");
}

#[test]
fn validation_error_is_plain_text_under_400() {
    let failure = HttpFailResult::as_validation_error("wrong \u{e9}".to_string());
    assert_eq!(failure.status_code, 400);
    assert_eq!(failure.content_type, WebContentType::Text);
    assert_eq!(failure.content, "wrong \u{e9}".as_bytes().to_vec());
    assert!(failure.write_telemetry);
    assert!(failure.write_to_log);
}

#[test]
fn fail_result_keeps_what_it_is_given() {
    let failure = HttpFailResult::new(WebContentType::Text, 418, vec![1, 2], true, false);
    assert_eq!(failure.content_type, WebContentType::Text);
    assert_eq!(failure.status_code, 418);
    assert_eq!(failure.content, vec![1, 2]);
    assert!(failure.write_telemetry);
    assert!(!failure.write_to_log);
}

#[test]
fn server_setup_with_the_middleware() {
    let setup = configure_rest_api_server();
    match setup.authorization {
        Some(ControllersAuthorization::BearerAuthentication { global, global_claims }) => {
            assert!(global);
            assert!(global_claims.is_empty());
        }
        None => panic!("bearer authentication was expected"),
    }
    assert!(setup.auth_middleware.is_some());
    assert_eq!(setup.auth_error_factory.get_not_authenticated().status_code, 401);
}

#[test]
fn server_setup_without_the_middleware() {
    let setup = configure_rest_api_server_with_no_auth_middleware();
    assert!(setup.authorization.is_none());
    assert!(setup.auth_middleware.is_none());
    let failure = setup.auth_error_factory.get_not_authorized("x".to_string());
    assert_eq!(failure.status_code, 403);
    assert_eq!(failure.content, "{\"result\":-998,\"data\":\"x\"}".as_bytes().to_vec());
}
