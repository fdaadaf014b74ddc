use vstd::prelude::*;

use crate::models::{AuthenticateUserRequest, RequestToken};
use crate::reply::{Action, AuthError, Reply};

verus! {

/// What issuance does first: an empty redirect URI is refused at once, any
/// other is handed to the authorization service unchanged.
pub open spec fn authentication_start(req: AuthenticateUserRequest) -> Action {
    if req.redirect_uri@.len() == 0 {
        Action::Respond { reply: Reply::AuthFailed { error: AuthError::ValidationError } }
    } else {
        Action::CallIssuer { redirect_uri: req.redirect_uri }
    }
}

/// What issuance answers once the service has replied: the token exactly as
/// received, or an upstream failure.
pub open spec fn authentication_end(outcome: Option<RequestToken>) -> Action {
    match outcome {
        Some(t) => Action::Respond { reply: Reply::TokenIssued { request_token: t } },
        None => Action::Respond { reply: Reply::AuthFailed { error: AuthError::UpstreamFailure } },
    }
}

/// First step of issuance.
pub fn begin_authentication(req: &AuthenticateUserRequest) -> (a: Action)
    ensures
        a == authentication_start(*req),
{
    if req.redirect_uri.as_str().is_empty() {
        Action::Respond { reply: Reply::AuthFailed { error: AuthError::ValidationError } }
    } else {
        Action::CallIssuer { redirect_uri: req.redirect_uri.clone() }
    }
}

/// Last step of issuance, given what the authorization service returned
/// (`None` for any transport, rejection or payload failure).
pub fn complete_authentication(outcome: Option<RequestToken>) -> (a: Action)
    ensures
        a == authentication_end(outcome),
        outcome is Some ==> a == (Action::Respond {
            reply: Reply::TokenIssued { request_token: outcome->Some_0 },
        }),
{
    match outcome {
        Some(t) => Action::Respond { reply: Reply::TokenIssued { request_token: t } },
        None => Action::Respond { reply: Reply::AuthFailed { error: AuthError::UpstreamFailure } },
    }
}

} // verus!
