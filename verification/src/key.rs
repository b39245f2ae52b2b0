//! The symmetric master key: exactly 256 bits, fixed for the life of the process.

use vstd::prelude::*;
use crate::cipher::fresh_key_bytes;
use crate::codec::{base64_bytes, from_base64};
use crate::error::ConfigurationError;

verus! {

/// The length of a master key in bytes.
pub const KEY_LEN: usize = 32;

/// A 256-bit key. It has no method that changes it.
pub struct MasterKey {
    bytes: [u8; 32],
}

impl View for MasterKey {
    type V = Seq<u8>;

    closed spec fn view(&self) -> Seq<u8> {
        self.bytes@
    }
}

/// What loading a key from raw bytes yields.
pub open spec fn key_from_raw(raw: Seq<u8>) -> Result<Seq<u8>, ConfigurationError> {
    if raw.len() == KEY_LEN {
        Ok(raw)
    } else {
        Err(ConfigurationError::KeyLength { actual: raw.len() as usize })
    }
}

/// What loading a key from a base64 secret yields, by what the secret decodes to.
pub open spec fn key_from_secret(secret: Seq<char>) -> Result<Seq<u8>, ConfigurationError> {
    match base64_bytes(secret) {
        Some(raw) => key_from_raw(raw),
        None => Err(ConfigurationError::KeyNotBase64),
    }
}

/// Whether `r` is the outcome `expected`, with the key taken by its view.
pub open spec fn loads_as(
    r: Result<MasterKey, ConfigurationError>,
    expected: Result<Seq<u8>, ConfigurationError>,
) -> bool {
    match r {
        Ok(key) => expected == Ok::<Seq<u8>, ConfigurationError>(key@),
        Err(e) => expected == Err::<Seq<u8>, ConfigurationError>(e),
    }
}

impl MasterKey {
    /// Takes `raw` as the key if it has exactly 32 bytes, and rejects every
    /// other length with the length it found.
    pub fn from_bytes(raw: &[u8]) -> (r: Result<MasterKey, ConfigurationError>)
        ensures
            loads_as(r, key_from_raw(raw@)),
            r is Ok <==> raw@.len() == KEY_LEN,
    {
        let n: usize = raw.len();
        if n != KEY_LEN {
            return Err(ConfigurationError::KeyLength { actual: n });
        }
        let mut bytes: [u8; 32] = [0u8; 32];
        let mut i: usize = 0;
        while i < KEY_LEN
            invariant
                i <= KEY_LEN,
                raw@.len() == KEY_LEN,
                forall|j: int| 0 <= j < i ==> bytes@[j] == raw@[j],
            decreases KEY_LEN - i,
        {
            bytes[i] = raw[i];
            i = i + 1;
        }
        assert(bytes@ =~= raw@);
        Ok(MasterKey { bytes })
    }

    /// Loads the key from its base64 form. Succeeds exactly on the secrets
    /// that decode to 32 bytes; any other decoded length, and any text that is
    /// not base64, is a configuration error.
    pub fn from_base64(secret: &str) -> (r: Result<MasterKey, ConfigurationError>)
        ensures
            loads_as(r, key_from_secret(secret@)),
            r is Ok <==> (base64_bytes(secret@) matches Some(raw) && raw.len() == KEY_LEN),
    {
        match from_base64(secret) {
            Some(raw) => MasterKey::from_bytes(raw.as_slice()),
            None => Err(ConfigurationError::KeyNotBase64),
        }
    }

    /// A key drawn from the operating system's random source, for a process
    /// that keeps no key between runs.
    pub fn ephemeral() -> (key: MasterKey)
        ensures
            key@.len() == KEY_LEN,
    {
        MasterKey::from_array(fresh_key_bytes())
    }

    /// The 32 bytes of the key.
    pub fn as_bytes(&self) -> (bytes: &[u8; 32])
        ensures
            bytes@ == self@,
            self@.len() == KEY_LEN,
    {
        &self.bytes
    }

    /// Takes 32 bytes as the key, whatever they are.
    pub fn from_array(bytes: [u8; 32]) -> (key: MasterKey)
        ensures
            key@ == bytes@,
            key@.len() == KEY_LEN,
    {
        MasterKey { bytes }
    }
}

} // verus!
