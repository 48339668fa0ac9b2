use std::sync::Arc;
use vstd::prelude::*;

use super::get_session_token::{session_token, GetSessionToken};
use super::request_creds::TradingPlatformRequestCredentials;
use super::session_entity::SessionEntity;
use crate::http::{HttpContext, HttpFailResult};

verus! {

/// The stage of the pipeline that resolves the session of a request. It
/// enriches the request and never ends it.
#[derive(Clone, Copy, Debug)]
pub struct AuthMiddleware;

/// What the stage asks of the server after it has read a request.
#[derive(Debug)]
pub enum AuthAction {
    /// The request carries no token: it goes on as it is.
    Continue,
    /// The session under this key is to be looked up in the store.
    LookupSession { partition_key: String, row_key: String },
}

/// The credential slot after the store has answered: a session that was
/// found fills it, a miss leaves it as it was.
pub open spec fn resolved(
    before: Option<TradingPlatformRequestCredentials>,
    found: Option<Arc<SessionEntity>>,
) -> Option<TradingPlatformRequestCredentials> {
    match found {
        Some(session_entity) => Some(TradingPlatformRequestCredentials { session_entity }),
        None => before,
    }
}

impl AuthMiddleware {
    pub fn new() -> Self {
        AuthMiddleware
    }

    /// Reads the request and says whether the store has to be asked. A
    /// request without a token asks for nothing.
    pub fn begin(&self, ctx: &HttpContext) -> (action: AuthAction)
        ensures
            session_token(ctx.request.headers@) is None ==> action is Continue,
            session_token(ctx.request.headers@) is Some ==> (action matches AuthAction::LookupSession {
                partition_key,
                row_key,
            } && partition_key@ == SessionEntity::PARTITION_KEY@ && row_key@ == session_token(
                ctx.request.headers@,
            ).unwrap()),
    {
        match ctx.get_session_token() {
            Some(token) => AuthAction::LookupSession {
                partition_key: SessionEntity::get_pk().to_owned(),
                row_key: token.to_owned(),
            },
            None => AuthAction::Continue,
        }
    }

    /// Takes the answer of the store. Neither a hit nor a miss ends the
    /// request, and nothing but the credential slot changes.
    pub fn complete(&self, ctx: &mut HttpContext, found: Option<Arc<SessionEntity>>) -> (verdict:
        Option<HttpFailResult>)
        ensures
            verdict is None,
            final(ctx).request == old(ctx).request,
            final(ctx).credentials == resolved(old(ctx).credentials, found),
    {
        match found {
            Some(session_entity) => {
                ctx.credentials = Some(TradingPlatformRequestCredentials::new(session_entity));
            },
            None => {},
        }
        None
    }

    /// Resolves the session of a request against a store that answers at
    /// once. The store is asked once, under the partition of all sessions
    /// and the token of the request, and not at all where the request
    /// carries no token.
    pub fn handle_request<F>(&self, ctx: &mut HttpContext, lookup: F) -> (verdict: Option<
        HttpFailResult,
    >) where F: FnOnce(&str, &str) -> Option<Arc<SessionEntity>>
        requires
            forall|partition_key: &str, row_key: &str|
                call_requires(lookup, (partition_key, row_key)),
        ensures
            verdict is None,
            final(ctx).request == old(ctx).request,
            session_token(old(ctx).request.headers@) is None ==> final(ctx).credentials == old(
                ctx,
            ).credentials,
            session_token(old(ctx).request.headers@) is Some ==> exists|
                partition_key: &str,
                row_key: &str,
                found: Option<Arc<SessionEntity>>,
            |
                {
                    &&& partition_key@ == SessionEntity::PARTITION_KEY@
                    &&& row_key@ == session_token(old(ctx).request.headers@).unwrap()
                    &&& call_ensures(lookup, (partition_key, row_key), found)
                    &&& final(ctx).credentials == resolved(old(ctx).credentials, found)
                },
    {
        let found = match ctx.get_session_token() {
            Some(token) => {
                let partition_key = SessionEntity::get_pk();
                let found = lookup(partition_key, token);
                assert(call_ensures(lookup, (partition_key, token), found));
                found
            },
            None => {
                return None;
            },
        };
        self.complete(ctx, found)
    }
}

} // verus!
