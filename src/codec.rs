use vstd::prelude::*;
use vstd::string::StringExecFns;

use crate::models::RedisPocketAccessTokenResponse;
use crate::reply::AuthError;

verus! {

#[verifier::external_type_specification]
#[verifier::external_body]
pub struct ExJsonError(serde_json::Error);

/// The JSON string literal that serde_json writes for a string.
pub uninterp spec fn json_text_of(s: Seq<char>) -> Seq<char>;

/// Relies on serde_json::to_string on a `str`: it writes the JSON string
/// literal for those characters, which depends on them alone, into a byte
/// vector, whose writes do not fail, so it always succeeds.
#[verifier::external_body]
fn json_string(s: &str) -> (r: Result<String, serde_json::Error>)
    ensures
        r is Ok,
        r is Ok ==> r->Ok_0@ == json_text_of(s@),
{
    serde_json::to_string(s)
}

/// The record text built around two JSON string literals.
pub open spec fn framed(access_json: Seq<char>, user_json: Seq<char>) -> Seq<char> {
    "{\"access_token\":"@ + access_json + ",\"username\":"@ + user_json + "}"@
}

/// The serialized form of a credential: a JSON object with the fields
/// `access_token` and `username`, in that order.
pub open spec fn credential_blob(access_token: Seq<char>, username: Seq<char>) -> Seq<char> {
    framed(json_text_of(access_token), json_text_of(username))
}

/// Puts two JSON string literals into the record's object text.
pub fn frame_credential(access_json: &str, user_json: &str) -> (r: String)
    ensures
        r@ == framed(access_json@, user_json@),
{
    let mut r = String::from_str("{\"access_token\":");
    r.append(access_json);
    r.append(",\"username\":");
    r.append(user_json);
    r.append("}");
    r
}

/// Builds the record text from the serialized fields, or reports a
/// persistence failure when either of them could not be serialized.
pub fn blob_from_quoted(
    access_json: Result<String, AuthError>,
    user_json: Result<String, AuthError>,
) -> (r: Result<String, AuthError>)
    ensures
        (access_json is Ok && user_json is Ok) <==> r is Ok,
        r is Ok ==> r->Ok_0@ == framed(access_json->Ok_0@, user_json->Ok_0@),
        r is Err ==> r == Err::<String, AuthError>(AuthError::PersistenceFailed),
{
    match (access_json, user_json) {
        (Ok(a), Ok(u)) => Ok(frame_credential(a.as_str(), u.as_str())),
        _ => Err(AuthError::PersistenceFailed),
    }
}

/// Serializes a credential for the store. A failure of the serializer would
/// be a persistence failure; serializing two strings always succeeds.
pub fn serialize_credential(c: &RedisPocketAccessTokenResponse) -> (r: Result<String, AuthError>)
    ensures
        r is Ok,
        r is Ok ==> r->Ok_0@ == credential_blob(c.access_token@, c.username@),
        r is Err ==> r == Err::<String, AuthError>(AuthError::PersistenceFailed),
{
    let a = match json_string(c.access_token.as_str()) {
        Ok(t) => Ok(t),
        Err(_) => Err(AuthError::PersistenceFailed),
    };
    let u = match json_string(c.username.as_str()) {
        Ok(t) => Ok(t),
        Err(_) => Err(AuthError::PersistenceFailed),
    };
    blob_from_quoted(a, u)
}

} // verus!
