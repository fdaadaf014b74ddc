use vstd::prelude::*;

verus! {

/// Body of a request for a request token.
#[derive(Debug)]
pub struct AuthenticateUserRequest {
    pub redirect_uri: String,
}

/// Body of a request to exchange a request token for an access credential.
#[derive(Debug)]
pub struct AccessTokenRequest {
    pub request_token: String,
}

/// The access credential handed out by the authorization service, and the
/// shape of the persisted record.
#[derive(Debug)]
pub struct RedisPocketAccessTokenResponse {
    pub access_token: String,
    pub username: String,
}

/// A request token as the authorization service issued it.
#[derive(Debug)]
pub struct RequestToken {
    pub code: String,
    pub state: Option<String>,
}

} // verus!
