//! Trust-boundary logic of a confidential-computing relay.
//!
//! The enclave holds the key material, seals request bodies into authenticated
//! envelopes and hands them to the host as wire records; the host forwards
//! opaque byte streams and never sees plaintext.

pub mod bridge;
pub mod cipher;
pub mod codec;
pub mod config;
pub mod envelope;
pub mod error;
pub mod identity;
pub mod key;
pub mod request_id;
pub mod terminator;
pub mod trace;
pub mod wire;
