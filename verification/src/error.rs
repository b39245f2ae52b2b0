//! The error taxonomy: each kind is scoped to the unit of work that raised it.

use vstd::prelude::*;

verus! {

/// A fatal start-up failure: no listener may be opened after one of these.
#[derive(Debug, Clone, Copy, PartialEq, Eq, Structural)]
pub enum ConfigurationError {
    /// The secret is not a canonical base64 text.
    KeyNotBase64,
    /// The secret decodes to `actual` bytes, not to the 32 bytes of a key.
    KeyLength { actual: usize },
    /// No certificate and private key could be obtained.
    IdentityUnavailable,
    /// Of a context identifier and a port, only one was configured.
    EndpointIncomplete,
}

/// The cipher refused to seal a request body; that request is not acknowledged.
#[derive(Debug, Clone, Copy, PartialEq, Eq, Structural)]
pub enum EncryptionError {
    /// The body is longer than the cipher can seal under one nonce.
    PlaintextTooLong,
    /// The sealed body is too long to be written as base64 on this machine.
    RecordTooLong,
    /// The issuer has no request identifier left to give.
    IdentifiersExhausted,
}

/// An envelope did not authenticate under the key: nothing of it is revealed.
#[derive(Debug, Clone, Copy, PartialEq, Eq, Structural)]
pub struct AuthenticationFailure;

/// A record did not reach the host. Never fatal, and never reported to the client.
#[derive(Debug, Clone, Copy, PartialEq, Eq, Structural)]
pub enum DeliveryError {
    /// The record is not a well-formed envelope.
    Malformed,
    /// The host's storage endpoint could not be reached.
    Unreachable,
    /// The channel failed before the whole record was written.
    Interrupted,
}

/// A failure of one bridged connection; it ends that connection pair only.
#[derive(Debug, Clone, Copy, PartialEq, Eq, Structural)]
pub enum ConnectionError {
    /// The enclave's endpoint refused or failed the connection attempt.
    EnclaveUnreachable,
    /// Reading from or writing to the external client failed.
    ClientFailed,
    /// Reading from or writing to the enclave failed.
    EnclaveFailed,
}

} // verus!
