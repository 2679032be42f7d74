//! Delegated-authentication and token-lifecycle library.
//!
//! The crate mediates between a calling service acting for end-user
//! principals and a backend resource server.  On the client side it
//! obtains, caches and refreshes short-lived bearer tokens, retrying
//! under a bounded budget when a token is rejected; on the server side
//! it resolves one of several credential schemes into one
//! authenticated-principal abstraction and mints new tokens on demand.

pub mod api_key;
pub mod cache;
pub mod card;
pub mod config;
pub mod claims;
pub mod client;
pub mod error;
pub mod issuer;
pub mod mtls;
pub mod pagination;
pub mod payload;
pub mod resolver;
pub mod schema;
pub mod server_config;
pub mod user;
pub mod validate;
