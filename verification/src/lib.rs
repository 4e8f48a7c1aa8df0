//! A minimal shared-secret clipboard core.
//!
//! A client stores a text blob under a caller-chosen identifier, optionally
//! protected with a symmetric key using a one-time-pad (XOR) transform; a
//! second client later retrieves the blob and, if protected, must present the
//! matching key to receive the decoded plaintext.
//!
//! The crate holds the cryptographic and lifecycle core: the pad transform,
//! the constant-time key comparison that gates decoding, the insert-once
//! entry store, and the service that orchestrates them. Transport (HTTP,
//! JSON, persistence) is left to the caller.

pub mod codec;
pub mod errors;
pub mod hexstr;
pub mod keycmp;
pub mod service;
pub mod store;
