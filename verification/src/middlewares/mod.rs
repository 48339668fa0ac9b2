mod auth_error_factory;
mod auth_failed;
mod auth_middleware;
mod get_session_token;
mod request_creds;
mod session_entity;

pub use auth_error_factory::{
    claim_envelope, claim_failures, write_claim_envelope, AccessClaimRequired, AuthErrorFactoryWl,
};
pub use auth_failed::{
    described_envelope, described_failures, quiet_response, write_described_envelope,
    AuthErrorFactory, AuthFailResponseFactory, AuthenticationFailedApiResponse,
    AuthorizationFailedApiResponse,
};
pub use auth_middleware::{resolved, AuthAction, AuthMiddleware};
pub use get_session_token::{
    extract_token, lemma_token_after_scheme, lemma_token_extraction, session_token, token_of,
    GetSessionToken, AUTH_HEADER, MIN_HEADER_LEN,
    SCHEME_SEPARATOR_AT,
};
pub use request_creds::{
    lemma_permissions_ignore_order, permission_of, permissions_granted,
    TradingPlatformRequestCredentials,
};
pub use session_entity::{
    claims_of, count_named, lemma_set_claim_keeps_others, lemma_set_claim_twice,
    lemma_set_claim_upserts, names_unique, text_of, with_claim, without_name, Claim, Session,
    SessionClaim, SessionEntity,
};
