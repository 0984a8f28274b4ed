//! A client core for a cluster-management HTTP API.
//!
//! The crate decides everything about an exchange with a cluster except the
//! bytes on the wire: which certificate authority is trusted, which identity
//! is presented, what each request looks like and how each reply is judged.
//! Network and file access are supplied by the caller as closures, so every
//! decision made here is stated in a contract and proved.

pub mod auth;
pub mod client;
pub mod endpoint;
pub mod error;
pub mod guarantees;
pub mod json;
pub mod objects;
pub mod tls;
pub mod wire;
