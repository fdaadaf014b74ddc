use vstd::prelude::*;
use vstd::string::StringExecFns;

use crate::codec::{credential_blob, serialize_credential};
use crate::models::{AccessTokenRequest, RedisPocketAccessTokenResponse};
use crate::reply::{Action, AuthError, Reply, StoreWrite};

verus! {

/// The fixed key of the single credential record.
pub open spec fn record_key() -> Seq<char> {
    "access_token"@
}

/// The hash field of the credential record.
pub open spec fn record_field() -> Seq<char> {
    "data"@
}

/// What the exchange does first: an empty request token is refused at once,
/// any other is handed to the authorization service unchanged.
pub open spec fn exchange_start(req: AccessTokenRequest) -> Action {
    if req.request_token@.len() == 0 {
        Action::Respond { reply: Reply::SaveFailed { error: AuthError::ValidationError, echo: None } }
    } else {
        Action::CallExchange { request_token: req.request_token }
    }
}

/// `a` writes `value` at the credential record, on behalf of `c`.
pub open spec fn writes_record(a: Action, c: RedisPocketAccessTokenResponse, value: Seq<char>) -> bool {
    &&& a is WriteStore
    &&& a->write.key@ == record_key()
    &&& a->write.field@ == record_field()
    &&& a->write.value@ == value
    &&& a->write.credential == c
}

/// The answer when persisting `c` failed: the credential is still reported.
pub open spec fn persist_failed(c: RedisPocketAccessTokenResponse) -> Action {
    Action::Respond { reply: Reply::SaveFailed { error: AuthError::PersistenceFailed, echo: Some(c) } }
}

/// The answer when the exchange failed.
pub open spec fn exchange_failed() -> Action {
    Action::Respond { reply: Reply::SaveFailed { error: AuthError::ExchangeFailed, echo: None } }
}

/// What follows the exchange call: a failure is answered without touching
/// the store; a credential is written as its serialized record.
pub open spec fn exchange_step(outcome: Option<RedisPocketAccessTokenResponse>, a: Action) -> bool {
    match outcome {
        None => a == exchange_failed(),
        Some(c) => writes_record(a, c, credential_blob(c.access_token@, c.username@)),
    }
}

/// What the exchange answers once the store write has been attempted.
pub open spec fn exchange_end(write: StoreWrite, stored: bool) -> Action {
    if stored {
        Action::Respond { reply: Reply::TokenSaved { credential: write.credential } }
    } else {
        persist_failed(write.credential)
    }
}

/// First step of the exchange.
pub fn begin_exchange(req: &AccessTokenRequest) -> (a: Action)
    ensures
        a == exchange_start(*req),
{
    if req.request_token.as_str().is_empty() {
        Action::Respond { reply: Reply::SaveFailed { error: AuthError::ValidationError, echo: None } }
    } else {
        Action::CallExchange { request_token: req.request_token.clone() }
    }
}

/// Given a credential and the outcome of serializing it, decides between the
/// store write and a persistence failure.
pub fn plan_persist(credential: RedisPocketAccessTokenResponse, blob: Result<String, AuthError>) -> (a: Action)
    ensures
        blob is Ok ==> writes_record(a, credential, blob->Ok_0@),
        blob is Err ==> a == persist_failed(credential),
{
    match blob {
        Ok(value) => Action::WriteStore {
            write: StoreWrite {
                key: String::from_str("access_token"),
                field: String::from_str("data"),
                value,
                credential,
            },
        },
        Err(_) => Action::Respond {
            reply: Reply::SaveFailed { error: AuthError::PersistenceFailed, echo: Some(credential) },
        },
    }
}

/// Step after the exchange call, given what the authorization service
/// returned (`None` for any failure). The store is never written after a
/// failed exchange.
pub fn after_exchange(outcome: Option<RedisPocketAccessTokenResponse>) -> (a: Action)
    ensures
        exchange_step(outcome, a),
        outcome is None ==> a == exchange_failed(),
        outcome is Some ==> writes_record(
            a,
            outcome->Some_0,
            credential_blob(outcome->Some_0.access_token@, outcome->Some_0.username@),
        ),
{
    match outcome {
        None => Action::Respond {
            reply: Reply::SaveFailed { error: AuthError::ExchangeFailed, echo: None },
        },
        Some(c) => {
            let blob = serialize_credential(&c);
            plan_persist(c, blob)
        },
    }
}

/// Last step of the exchange, given whether the store write succeeded.
pub fn after_store(write: StoreWrite, stored: bool) -> (a: Action)
    ensures
        a == exchange_end(write, stored),
{
    if stored {
        Action::Respond { reply: Reply::TokenSaved { credential: write.credential } }
    } else {
        Action::Respond {
            reply: Reply::SaveFailed { error: AuthError::PersistenceFailed, echo: Some(write.credential) },
        }
    }
}

} // verus!
