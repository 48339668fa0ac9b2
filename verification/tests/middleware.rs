use std::collections::HashMap;
use std::sync::Arc;

use rest_api_auth::date_time::DateTimeAsMicroseconds;
use rest_api_auth::http::{
    HttpContext, HttpFailResult, HttpRequest, HttpRequestHeaders, RequestCredentials,
    WebContentType,
};
use rest_api_auth::middlewares::{
    extract_token, AuthAction, AuthErrorFactory, AuthErrorFactoryWl, AuthFailResponseFactory,
    AuthMiddleware, GetSessionToken, SessionClaim, SessionEntity,
};
use rest_api_auth::{GetClientId, GetCountryCode};

fn request(headers: &[(&str, &[u8])]) -> HttpContext {
    let mut list = HttpRequestHeaders::new();
    for (name, value) in headers {
        list.add(name.to_string(), value.to_vec());
    }
    HttpContext::new(HttpRequest::new(list))
}

fn session(token: &str, trader_id: &str, claims: &[(&str, i64)]) -> Arc<SessionEntity> {
    Arc::new(SessionEntity {
        partition_key: "t".to_string(),
        row_key: token.to_string(),
        expires: DateTimeAsMicroseconds::new(i64::MAX),
        trader_id: trader_id.to_string(),
        claims: Some(
            claims
                .iter()
                .map(|(name, expires)| SessionClaim {
                    name: name.to_string(),
                    expires: *expires,
                    ip: None,
                })
                .collect(),
        ),
        country: None,
        ip: None,
        user_agent: None,
    })
}

fn store(sessions: Vec<Arc<SessionEntity>>) -> HashMap<(String, String), Arc<SessionEntity>> {
    sessions
        .into_iter()
        .map(|entity| ((entity.partition_key.clone(), entity.row_key.clone()), entity))
        .collect()
}

/// What the authorization layer does with the credential slot: a route that
/// needs a caller refuses a request without one, and a route that needs a
/// claim refuses a caller without it.
fn authorize(
    ctx: &HttpContext,
    required_claim: Option<&str>,
    factory: &impl AuthErrorFactory,
) -> Result<(), HttpFailResult> {
    let credentials = match ctx.credentials.as_ref() {
        Some(credentials) => credentials,
        None => return Err(factory.get_not_authenticated()),
    };
    if let Some(required) = required_claim {
        let held = credentials
            .get_claims()
            .map(|claims| claims.iter().any(|claim| claim.id == required))
            .unwrap_or(false);
        if !held {
            return Err(factory.get_not_authorized(required.to_string()));
        }
    }
    Ok(())
}

#[test]
fn token_after_a_six_letter_scheme() {
    assert_eq!(extract_token("Bearer abc123".as_bytes()), Some("abc123".as_bytes()));
    assert_eq!(extract_token("Tokens abc123".as_bytes()), Some("abc123".as_bytes()));
    assert_eq!(extract_token("123456 x".as_bytes()), Some("x".as_bytes()));
}

#[test]
fn space_at_offset_six_with_nothing_behind_it_gives_an_empty_token() {
    assert_eq!(extract_token("Bearer ".as_bytes()), Some("".as_bytes()));
}

#[test]
fn value_shorter_than_six_bytes_has_no_token() {
    assert_eq!(extract_token("".as_bytes()), None);
    assert_eq!(extract_token("xyz".as_bytes()), None);
    assert_eq!(extract_token("abcde".as_bytes()), None);
    assert_eq!(extract_token("a b c".as_bytes()), None);
}

#[test]
fn value_without_a_space_at_offset_six_is_the_token() {
    assert_eq!(extract_token("abcdefgh".as_bytes()), Some("abcdefgh".as_bytes()));
    assert_eq!(extract_token("Basic abc123".as_bytes()), Some("Basic abc123".as_bytes()));
    assert_eq!(extract_token("abcdefg".as_bytes()), Some("abcdefg".as_bytes()));
}

#[test]
fn value_of_six_bytes_is_the_token() {
    assert_eq!(extract_token("abcdef".as_bytes()), Some("abcdef".as_bytes()));
    assert_eq!(extract_token("Bearer".as_bytes()), Some("Bearer".as_bytes()));
}

#[test]
fn session_token_comes_from_the_authorization_header() {
    let ctx = request(&[("host", b"example.org"), ("authorization", b"Bearer abc123")]);
    assert_eq!(ctx.get_session_token(), Some("abc123"));
}

#[test]
fn header_name_is_matched_whatever_its_case() {
    let ctx = request(&[("Authorization", b"Bearer abc123")]);
    assert_eq!(ctx.get_session_token(), Some("abc123"));
    let ctx = request(&[("AUTHORIZATION", b"abcdefgh")]);
    assert_eq!(ctx.get_session_token(), Some("abcdefgh"));
    let ctx = request(&[("authorisation", b"Bearer abc123")]);
    assert_eq!(ctx.get_session_token(), None);
}

#[test]
fn first_authorization_header_counts() {
    let ctx = request(&[("authorization", b"Bearer first"), ("authorization", b"Bearer second")]);
    assert_eq!(ctx.get_session_token(), Some("first"));
}

#[test]
fn token_that_is_no_text_is_no_token() {
    let ctx = request(&[("authorization", &[b'B', b'e', b'a', b'r', b'e', b'r', b' ', 0xff, 0xfe])]);
    assert_eq!(ctx.get_session_token(), None);
}

#[test]
fn raw_header_lookup() {
    let ctx = request(&[("Content-Type", b"text/plain"), ("X-Trace", b"1")]);
    let headers = ctx.request.get_headers();
    assert_eq!(headers.try_get_case_insensitive("content-type"), Some("text/plain".as_bytes()));
    assert_eq!(headers.try_get_case_insensitive("x-trace"), Some("1".as_bytes()));
    assert_eq!(headers.try_get_case_insensitive("x-trac"), None);
    assert_eq!(headers.try_get_case_insensitive("x_trace"), None);
}

#[test]
fn begin_asks_for_the_session_under_the_fixed_partition() {
    let middleware = AuthMiddleware::new();
    let ctx = request(&[("authorization", b"Bearer abc123")]);
    match middleware.begin(&ctx) {
        AuthAction::LookupSession { partition_key, row_key } => {
            assert_eq!(partition_key, "t");
            assert_eq!(row_key, "abc123");
        }
        AuthAction::Continue => panic!("a lookup was expected"),
    }
}

#[test]
fn begin_asks_for_nothing_without_a_token() {
    let middleware = AuthMiddleware::new();
    assert!(matches!(middleware.begin(&request(&[])), AuthAction::Continue));
    assert!(matches!(
        middleware.begin(&request(&[("authorization", b"xyz")])),
        AuthAction::Continue
    ));
}

#[test]
fn complete_fills_the_slot_on_a_hit_only() {
    let middleware = AuthMiddleware::new();
    let mut ctx = request(&[("authorization", b"Bearer abc123")]);
    assert!(middleware.complete(&mut ctx, None).is_none());
    assert!(ctx.credentials.is_none());
    assert!(middleware.complete(&mut ctx, Some(session("abc123", "u1", &[]))).is_none());
    assert_eq!(ctx.get_client_id().ok(), Some("u1"));
    assert!(middleware.complete(&mut ctx, None).is_none());
    assert_eq!(ctx.get_client_id().ok(), Some("u1"));
}

#[test]
fn miss_leaves_the_slot_empty_and_the_request_alive() {
    let sessions = store(vec![session("abc123", "u1", &[("trade", i64::MAX)])]);
    let mut ctx = request(&[("authorization", b"Bearer unknown")]);
    let verdict = AuthMiddleware::new().handle_request(&mut ctx, |partition_key, row_key| {
        sessions.get(&(partition_key.to_string(), row_key.to_string())).cloned()
    });
    assert!(verdict.is_none());
    assert!(ctx.credentials.is_none());
    assert_eq!(ctx.get_session_token(), Some("unknown"));
}

#[test]
fn store_is_asked_once_for_a_token_and_never_without_one() {
    let mut asked = 0;
    let mut ctx = request(&[("authorization", b"Bearer abc123")]);
    AuthMiddleware::new().handle_request(&mut ctx, |partition_key, row_key| {
        asked += 1;
        assert_eq!(partition_key, "t");
        assert_eq!(row_key, "abc123");
        None
    });
    assert_eq!(asked, 1);

    let mut asked = 0;
    let mut ctx = request(&[("accept", b"*/*")]);
    AuthMiddleware::new().handle_request(&mut ctx, |_, _| {
        asked += 1;
        None
    });
    assert_eq!(asked, 0);
}

#[test]
fn scenario_bearer_token_of_a_known_session() {
    let sessions = store(vec![session("abc123", "u1", &[("trade", i64::MAX)])]);
    let mut ctx = request(&[("Authorization", b"Bearer abc123")]);
    let verdict = AuthMiddleware::new().handle_request(&mut ctx, |partition_key, row_key| {
        sessions.get(&(partition_key.to_string(), row_key.to_string())).cloned()
    });
    assert!(verdict.is_none());
    let credentials = ctx.credentials.as_ref().unwrap();
    assert_eq!(credentials.get_id(), "u1");
    let claims = credentials.get_claims().unwrap();
    assert_eq!(claims.len(), 1);
    assert_eq!(claims[0].id, "trade");
    assert_eq!(claims[0].expires.unix_microseconds, i64::MAX);
    assert!(authorize(&ctx, Some("trade"), &AuthFailResponseFactory).is_ok());
}

#[test]
fn scenario_no_header() {
    let sessions = store(vec![session("abc123", "u1", &[("trade", i64::MAX)])]);
    let mut ctx = request(&[]);
    let verdict = AuthMiddleware::new().handle_request(&mut ctx, |partition_key, row_key| {
        sessions.get(&(partition_key.to_string(), row_key.to_string())).cloned()
    });
    assert!(verdict.is_none());
    assert!(ctx.credentials.is_none());

    let failure = authorize(&ctx, None, &AuthFailResponseFactory).unwrap_err();
    assert_eq!(failure.status_code, 401);
    assert_eq!(failure.content_type, WebContentType::Json);
    assert_eq!(
        failure.content,
        "{\"result\":-2,\"description\":\"Authentication required\"}".as_bytes().to_vec()
    );
    assert!(!failure.write_telemetry);
    assert!(!failure.write_to_log);

    let failure = authorize(&ctx, None, &AuthErrorFactoryWl).unwrap_err();
    assert_eq!(failure.status_code, 401);
    assert_eq!(failure.content, "{\"status\":-2}".as_bytes().to_vec());
    assert!(!failure.write_telemetry);
}

#[test]
fn scenario_header_too_short() {
    assert_eq!(extract_token("xyz".as_bytes()), None);
    let sessions = store(vec![session("xyz", "u1", &[("trade", i64::MAX)])]);
    let mut ctx = request(&[("authorization", b"xyz")]);
    let verdict = AuthMiddleware::new().handle_request(&mut ctx, |partition_key, row_key| {
        sessions.get(&(partition_key.to_string(), row_key.to_string())).cloned()
    });
    assert!(verdict.is_none());
    assert!(ctx.credentials.is_none());

    let failure = authorize(&ctx, None, &AuthFailResponseFactory).unwrap_err();
    assert_eq!(failure.status_code, 401);
    assert_eq!(
        failure.content,
        "{\"result\":-2,\"description\":\"Authentication required\"}".as_bytes().to_vec()
    );
    assert!(!failure.write_telemetry);
}

#[test]
fn scenario_claim_missing() {
    let sessions = store(vec![session("abc123", "u1", &[("trade", i64::MAX)])]);
    let mut ctx = request(&[("authorization", b"Bearer abc123")]);
    AuthMiddleware::new().handle_request(&mut ctx, |partition_key, row_key| {
        sessions.get(&(partition_key.to_string(), row_key.to_string())).cloned()
    });

    let failure = authorize(&ctx, Some("withdraw"), &AuthErrorFactoryWl).unwrap_err();
    assert_eq!(failure.status_code, 403);
    assert_eq!(failure.content_type, WebContentType::Json);
    assert_eq!(failure.content, "{\"result\":-998,\"data\":\"withdraw\"}".as_bytes().to_vec());
    assert!(!failure.write_telemetry);
    assert!(!failure.write_to_log);
    let body: serde_json::Value = serde_json::from_slice(&failure.content).unwrap();
    assert_eq!(body.get("result").and_then(|code| code.as_i64()), Some(-998));
    assert_eq!(body.get("data").and_then(|data| data.as_str()), Some("withdraw"));

    let failure = authorize(&ctx, Some("withdraw"), &AuthFailResponseFactory).unwrap_err();
    assert_eq!(failure.status_code, 403);
    assert_eq!(failure.content_type, WebContentType::Json);
    assert_eq!(failure.content, "{\"result\":-998,\"data\":\"withdraw\"}".as_bytes().to_vec());
    assert!(!failure.write_telemetry);
    assert!(!failure.write_to_log);
    let body: serde_json::Value = serde_json::from_slice(&failure.content).unwrap();
    assert_eq!(body.get("result").and_then(|code| code.as_i64()), Some(-998));
    assert_eq!(body.get("data").and_then(|data| data.as_str()), Some("withdraw"));
    assert!(body.get("description").is_none());
}

#[test]
fn client_id_needs_credentials() {
    let ctx = request(&[]);
    let failure = ctx.get_client_id().unwrap_err();
    assert_eq!(failure.status_code, 401);
    assert_eq!(failure.content_type, WebContentType::Text);
    assert_eq!(failure.content, "Unauthenticated".as_bytes().to_vec());
    assert!(!failure.write_telemetry);
    assert!(!failure.write_to_log);
}

#[test]
fn country_comes_from_the_edge_header() {
    let ctx = request(&[("CF-IPCountry", b"DE")]);
    assert_eq!(ctx.request.get_country_code(), Some("DE"));
    let ctx = request(&[("cf-ipcountry", &[0xc3, 0x28])]);
    assert_eq!(ctx.request.get_country_code(), None);
    let ctx = request(&[("x-country", b"DE")]);
    assert_eq!(ctx.request.get_country_code(), None);
}
