use vstd::prelude::*;
use vstd::string::StringExecFns;

use crate::models::{RedisPocketAccessTokenResponse, RequestToken};

verus! {

/// Why an operation of the flow failed.
#[derive(Debug, Clone, Copy, PartialEq, Eq, Structural)]
pub enum AuthError {
    /// Caller input was missing or empty; no remote call was made.
    ValidationError,
    /// The authorization service failed while issuing a request token.
    UpstreamFailure,
    /// The authorization service failed while exchanging a request token.
    ExchangeFailed,
    /// The credential could not be serialized or written to the store.
    PersistenceFailed,
}

/// The words reported to the caller for each kind of failure.
pub open spec fn reason_text(e: AuthError) -> Seq<char> {
    match e {
        AuthError::ValidationError => "Missing required input"@,
        AuthError::UpstreamFailure => "Request Token Issuance Failed"@,
        AuthError::ExchangeFailed => "Access Token Conversion Failed"@,
        AuthError::PersistenceFailed => "Failed to store access token in Redis"@,
    }
}

impl AuthError {
    /// The reason string of the failure.
    pub fn reason(&self) -> (r: String)
        ensures
            r@ == reason_text(*self),
    {
        match self {
            AuthError::ValidationError => String::from_str("Missing required input"),
            AuthError::UpstreamFailure => String::from_str("Request Token Issuance Failed"),
            AuthError::ExchangeFailed => String::from_str("Access Token Conversion Failed"),
            AuthError::PersistenceFailed => String::from_str("Failed to store access token in Redis"),
        }
    }
}

/// The message of a successful save.
pub open spec fn saved_message_text() -> Seq<char> {
    "Pocket access token saved successfully."@
}

/// What the flow answers its caller with.
#[derive(Debug)]
pub enum Reply {
    /// A request token was issued: it is handed on exactly as received.
    TokenIssued { request_token: RequestToken },
    /// Issuing a request token failed; the answer has an empty body.
    AuthFailed { error: AuthError },
    /// The credential was obtained and persisted.
    TokenSaved { credential: RedisPocketAccessTokenResponse },
    /// Exchange or persistence failed; `echo` holds the credential when the
    /// exchange itself succeeded.
    SaveFailed { error: AuthError, echo: Option<RedisPocketAccessTokenResponse> },
}

/// The HTTP status of a reply.
pub open spec fn reply_status(r: Reply) -> u16 {
    match r {
        Reply::TokenIssued { .. } => 200,
        Reply::TokenSaved { .. } => 200,
        _ => 500,
    }
}

impl Reply {
    /// The HTTP status of the reply.
    pub fn status(&self) -> (r: u16)
        ensures
            r == reply_status(*self),
    {
        match self {
            Reply::TokenIssued { .. } => 200,
            Reply::TokenSaved { .. } => 200,
            _ => 500,
        }
    }

    /// Whether the reply reports success.
    pub fn is_success(&self) -> (r: bool)
        ensures
            r == (reply_status(*self) == 200),
    {
        match self {
            Reply::TokenIssued { .. } => true,
            Reply::TokenSaved { .. } => true,
            _ => false,
        }
    }

    /// The message of a successful save.
    pub fn saved_message() -> (r: String)
        ensures
            r@ == saved_message_text(),
    {
        String::from_str("Pocket access token saved successfully.")
    }
}

/// One unconditional hash-field write: `value` goes to `field` of `key`.
/// `credential` is the credential that `value` serializes.
#[derive(Debug)]
pub struct StoreWrite {
    pub key: String,
    pub field: String,
    pub value: String,
    pub credential: RedisPocketAccessTokenResponse,
}

/// The next thing the caller is to do on the flow's behalf.
#[derive(Debug)]
pub enum Action {
    /// Ask the authorization service for a request token.
    CallIssuer { redirect_uri: String },
    /// Ask the authorization service to exchange a request token.
    CallExchange { request_token: String },
    /// Write to the key-value store, then report whether the write succeeded.
    WriteStore { write: StoreWrite },
    /// Answer the caller; the flow is over.
    Respond { reply: Reply },
}

} // verus!
