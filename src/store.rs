use vstd::prelude::*;

use crate::codec::credential_blob;
use crate::exchanger::{exchange_end, exchange_step, record_field, record_key};
use crate::issuer::{authentication_end, authentication_start};
use crate::models::{AuthenticateUserRequest, RedisPocketAccessTokenResponse, RequestToken};
use crate::reply::{Action, AuthError, Reply};

verus! {

/// The key-value store after the caller has carried out `a`: a write is an
/// unconditional upsert of one hash field; any other action leaves it alone.
pub open spec fn apply_action(
    store: Map<(Seq<char>, Seq<char>), Seq<char>>,
    a: Action,
) -> Map<(Seq<char>, Seq<char>), Seq<char>> {
    match a {
        Action::WriteStore { write } => store.insert((write.key@, write.field@), write.value@),
        _ => store,
    }
}

/// The credential record that the store holds, if any.
pub open spec fn stored_record(store: Map<(Seq<char>, Seq<char>), Seq<char>>) -> Option<Seq<char>> {
    if store.contains_key((record_key(), record_field())) {
        Some(store[(record_key(), record_field())])
    } else {
        None
    }
}

/// Issuing a request token never writes the store, and when the redirect URI
/// is empty or the service fails, the answer is an error.
pub proof fn issuance_never_writes(
    store: Map<(Seq<char>, Seq<char>), Seq<char>>,
    req: AuthenticateUserRequest,
    outcome: Option<RequestToken>,
)
    ensures
        apply_action(store, authentication_start(req)) == store,
        apply_action(store, authentication_end(outcome)) == store,
        req.redirect_uri@.len() == 0 ==> authentication_start(req) == (Action::Respond {
            reply: Reply::AuthFailed { error: AuthError::ValidationError },
        }),
        outcome is None ==> authentication_end(outcome) == (Action::Respond {
            reply: Reply::AuthFailed { error: AuthError::UpstreamFailure },
        }),
{
}

/// A failed exchange leaves the store untouched and ends the flow with an
/// exchange failure.
pub proof fn failed_exchange_never_writes(store: Map<(Seq<char>, Seq<char>), Seq<char>>, a: Action)
    requires
        exchange_step(None, a),
    ensures
        !(a is WriteStore),
        apply_action(store, a) == store,
        a == (Action::Respond {
            reply: Reply::SaveFailed { error: AuthError::ExchangeFailed, echo: None },
        }),
{
}

/// After a successful exchange, the flow writes once, at the credential
/// record, the serialized form of exactly the credential the service
/// returned, and then answers without writing again; when the write went
/// through, the answer reports that same credential.
pub proof fn persisted_record_matches_exchange(
    store: Map<(Seq<char>, Seq<char>), Seq<char>>,
    c: RedisPocketAccessTokenResponse,
    a: Action,
    stored: bool,
)
    requires
        exchange_step(Some(c), a),
    ensures
        a is WriteStore,
        stored_record(apply_action(store, a)) == Some(credential_blob(c.access_token@, c.username@)),
        exchange_end(a->write, stored) is Respond,
        exchange_end(a->write, true) == (Action::Respond {
            reply: Reply::TokenSaved { credential: c },
        }),
{
    assert(apply_action(store, a).contains_key((record_key(), record_field())));
}

/// Two successful exchanges in a row leave the store exactly as the second
/// alone would: the first record is overwritten, not merged or kept.
pub proof fn second_exchange_overwrites_first(
    store: Map<(Seq<char>, Seq<char>), Seq<char>>,
    c1: RedisPocketAccessTokenResponse,
    a1: Action,
    c2: RedisPocketAccessTokenResponse,
    a2: Action,
)
    requires
        exchange_step(Some(c1), a1),
        exchange_step(Some(c2), a2),
    ensures
        apply_action(apply_action(store, a1), a2) == apply_action(store, a2),
        stored_record(apply_action(apply_action(store, a1), a2)) == Some(
            credential_blob(c2.access_token@, c2.username@),
        ),
{
    assert(apply_action(apply_action(store, a1), a2) =~= apply_action(store, a2));
    assert(apply_action(store, a2).contains_key((record_key(), record_field())));
}

} // verus!
