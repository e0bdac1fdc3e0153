//! Identity federation and signed-session authentication for a workspace/task
//! service.
//!
//! The core of the library is the interactive sign-in flow: a provider catalog
//! that builds OAuth2 authorization and callback URLs, a normalizer that maps
//! each provider's raw profile shape to a canonical `(provider_id,
//! provider_username)` pair, an identity store whose find-or-create operation
//! links a provider identity to exactly one local user, and a session codec
//! that issues and verifies the HMAC-signed `user_id.signature` credential
//! carried in a cookie.  Around that core stand the request/response value
//! types and the input validators of the protected routes.

pub mod auth;
pub mod callback;
pub mod crypto;
pub mod digits;
pub mod label;
pub mod profile;
pub mod provider;
pub mod responses;
pub mod session;
pub mod sign_in;
pub mod sign_out;
pub mod status;
pub mod store;
pub mod strutil;
pub mod task;
pub mod task_group;
pub mod urlenc;
pub mod user;
pub mod workspace;
pub mod workspace_view;
