//! Session and authentication core of a content-sharing backend: the session
//! stores, the session-id generator, the credential-extraction rules of the
//! request middleware and the resolver that turns a raw credential into an
//! identity, together with the shared data types they rest on.

pub mod common;
pub mod config;
pub mod entities;
pub mod error;
pub mod user;
pub mod utils;
