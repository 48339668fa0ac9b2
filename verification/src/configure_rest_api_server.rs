//! What a server has to be given so that its routes are guarded by sessions.
use vstd::prelude::*;

use crate::middlewares::{AuthFailResponseFactory, AuthMiddleware};

verus! {

/// How the routes of a server ask for a caller.
#[derive(Debug)]
pub enum ControllersAuthorization {
    /// A bearer token in the `Authorization` header. With `global` every
    /// route asks for a caller, and for each of `global_claims`.
    BearerAuthentication { global: bool, global_claims: Vec<String> },
}

/// The parts with which a server guards its routes.
#[derive(Debug)]
pub struct RestApiServerSetup {
    /// How routes ask for a caller, where the setup decides it.
    pub authorization: Option<ControllersAuthorization>,
    /// Gives the answers to callers that are unknown or lack a claim.
    pub auth_error_factory: AuthFailResponseFactory,
    /// Resolves the session of each request, where the setup has one.
    pub auth_middleware: Option<AuthMiddleware>,
}

/// The setup of a server that resolves sessions itself: every route asks for
/// a bearer token and for no claim beyond it.
pub fn configure_rest_api_server() -> (setup: RestApiServerSetup)
    ensures
        setup.authorization matches Some(
            ControllersAuthorization::BearerAuthentication { global, global_claims },
        ) && global && global_claims@.len() == 0,
        setup.auth_middleware is Some,
{
    RestApiServerSetup {
        authorization: Some(
            ControllersAuthorization::BearerAuthentication {
                global: true,
                global_claims: Vec::new(),
            },
        ),
        auth_error_factory: AuthFailResponseFactory,
        auth_middleware: Some(AuthMiddleware::new()),
    }
}

/// The setup of a server behind a gateway that resolves sessions: only the
/// answers to refused callers are set.
pub fn configure_rest_api_server_with_no_auth_middleware() -> (setup: RestApiServerSetup)
    ensures
        setup.authorization is None,
        setup.auth_middleware is None,
{
    RestApiServerSetup {
        authorization: None,
        auth_error_factory: AuthFailResponseFactory,
        auth_middleware: None,
    }
}

} // verus!
