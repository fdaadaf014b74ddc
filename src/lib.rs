//! Server-side half of a three-legged authorization flow against a bookmarking
//! service: the decisions that turn a redirect URI into a request token, and a
//! request token into a persisted access credential.
//!
//! Network calls and the key-value store are driven by the caller: each step
//! here takes what the last outside call returned and names the next
//! [`Action`]. [`store`] models the store and states what the flow does to it.

pub mod codec;
pub mod exchanger;
pub mod issuer;
pub mod models;
pub mod reply;
pub mod store;

pub use codec::{blob_from_quoted, frame_credential, serialize_credential};
pub use exchanger::{after_exchange, after_store, begin_exchange, plan_persist};
pub use issuer::{begin_authentication, complete_authentication};
pub use models::{AccessTokenRequest, AuthenticateUserRequest, RedisPocketAccessTokenResponse, RequestToken};
pub use reply::{Action, AuthError, Reply, StoreWrite};
