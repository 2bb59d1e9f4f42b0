//! Session authentication for sign-in-with-Ethereum services.
//!
//! The crate verifies an EIP-4361 sign-in message against its embedded
//! address, mints an opaque bearer token bound to the signer, keeps the
//! session in a time-limited store, and decides whether a presented token
//! authorizes access to an address-scoped resource.

pub mod auth;
pub mod codec;
pub mod crypto;
pub mod errors;
pub mod hexcode;
pub mod laws;
pub mod store;
pub mod workstreams;
