//! Account login for Yggdrasil-protocol game account servers.
//!
//! The crate turns a user name and password, or a stored token, into one
//! normalised account record, whichever server family issued it, and keeps
//! the secret token in the platform's credential store. Network transport
//! is left to the caller: each operation comes as a pair of functions, one
//! that says what to send and one that takes what came back.

pub mod account;
pub mod elyby;
pub mod error;
pub mod login;
pub mod provider;
pub mod store;
pub mod text;
pub mod wire;
