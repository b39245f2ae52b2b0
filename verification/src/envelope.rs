//! The envelope encryption engine: request bodies are sealed into
//! authenticated envelopes, and envelopes are opened again only if they
//! authenticate.

use vstd::prelude::*;
use vstd::slice::slice_to_vec;
use crate::cipher::{
    fits_key_stream, fresh_nonce, open_bytes, openable, opened, seal_bytes, sealable, sealed,
    NONCE_LEN, TAG_LEN,
};
use crate::error::{AuthenticationFailure, ConfigurationError, EncryptionError};
use crate::key::{key_from_secret, MasterKey, KEY_LEN};
use crate::codec::base64_bytes;
use crate::request_id::{is_request_id, RequestIds};

verus! {

/// A sealed request body with what is needed to identify and to open it.
#[derive(Debug, Clone, PartialEq, Eq)]
pub struct EncryptionEnvelope {
    /// The identifier under which the host files the envelope.
    pub request_id: String,
    /// The content type of the body, as the client gave it.
    pub content_type: String,
    /// The nonce the body was sealed under.
    pub nonce: Vec<u8>,
    /// The sealed body, ending in its authentication tag.
    pub ciphertext: Vec<u8>,
}

/// An envelope as plain values.
pub struct EnvelopeView {
    pub request_id: Seq<char>,
    pub content_type: Seq<char>,
    pub nonce: Seq<u8>,
    pub ciphertext: Seq<u8>,
}

impl View for EncryptionEnvelope {
    type V = EnvelopeView;

    open spec fn view(&self) -> EnvelopeView {
        EnvelopeView {
            request_id: self.request_id@,
            content_type: self.content_type@,
            nonce: self.nonce@,
            ciphertext: self.ciphertext@,
        }
    }
}

/// Whether a plaintext of `len` bytes can be sealed on this machine: it fits
/// in the cipher's key stream, and its ciphertext fits in memory.
pub open spec fn can_seal(len: int) -> bool {
    sealable(len) && len + TAG_LEN <= usize::MAX
}

/// The envelope that sealing `plaintext` under `key` and `nonce` gives.
pub open spec fn sealing(
    key: Seq<u8>,
    request_id: Seq<char>,
    content_type: Seq<char>,
    nonce: Seq<u8>,
    plaintext: Seq<u8>,
) -> EnvelopeView {
    EnvelopeView { request_id, content_type, nonce, ciphertext: sealed(key, nonce, plaintext) }
}

/// What an envelope opens to under `key`: its plaintext, or `None` where it
/// does not authenticate. An envelope whose nonce has not the cipher's
/// length, or whose ciphertext is longer than the cipher can have sealed,
/// never authenticates.
pub open spec fn opening(key: Seq<u8>, envelope: EnvelopeView) -> Option<Seq<u8>> {
    if envelope.nonce.len() == NONCE_LEN && openable(envelope.ciphertext.len() as int) {
        opened(key, envelope.nonce, envelope.ciphertext)
    } else {
        None
    }
}

/// Whether `envelope` is an encryption of `plaintext` under `key`: it carries
/// the content type unchanged and a request identifier, its ciphertext is the
/// plaintext sealed under the envelope's own nonce, and it opens to the
/// plaintext again.
pub open spec fn encrypts(
    envelope: EnvelopeView,
    key: Seq<u8>,
    plaintext: Seq<u8>,
    content_type: Seq<char>,
) -> bool {
    &&& envelope.content_type == content_type
    &&& is_request_id(envelope.request_id)
    &&& envelope.nonce.len() == NONCE_LEN
    &&& envelope.ciphertext == sealed(key, envelope.nonce, plaintext)
    &&& envelope.ciphertext.len() == plaintext.len() + TAG_LEN
    &&& opening(key, envelope) == Some(plaintext)
}

/// Decryption undoes encryption: whatever envelope encrypts a plaintext
/// under a key, opening it under that key gives the plaintext back, for every
/// plaintext and every content type.
pub proof fn lemma_decrypt_inverts_encrypt(
    key: Seq<u8>,
    plaintext: Seq<u8>,
    content_type: Seq<char>,
    envelope: EnvelopeView,
)
    requires
        encrypts(envelope, key, plaintext, content_type),
    ensures
        opening(key, envelope) == Some(plaintext),
        envelope.content_type == content_type,
{
}

/// Copies a slice of exactly 24 bytes into an array, and refuses any other length.
fn nonce_array(bytes: &[u8]) -> (r: Option<[u8; 24]>)
    ensures
        match r {
            Some(array) => array@ == bytes@,
            None => bytes@.len() != NONCE_LEN,
        },
{
    if bytes.len() != NONCE_LEN {
        return None;
    }
    let mut array: [u8; 24] = [0u8; 24];
    let mut i: usize = 0;
    while i < NONCE_LEN
        invariant
            i <= NONCE_LEN,
            bytes@.len() == NONCE_LEN,
            forall|j: int| 0 <= j < i ==> array@[j] == bytes@[j],
        decreases NONCE_LEN - i,
    {
        array[i] = bytes[i];
        i = i + 1;
    }
    Some(array)
}

/// Seals `plaintext` under `key` and the given nonce into an envelope that
/// carries the given identifier and content type. Fails exactly where the
/// plaintext is too long to seal.
pub fn seal_envelope(
    key: &MasterKey,
    request_id: String,
    content_type: &str,
    nonce: &[u8; 24],
    plaintext: &[u8],
) -> (r: Result<EncryptionEnvelope, EncryptionError>)
    ensures
        r is Ok <==> can_seal(plaintext@.len() as int),
        r matches Ok(envelope) ==> {
            &&& envelope@ == sealing(key@, request_id@, content_type@, nonce@, plaintext@)
            &&& envelope@.ciphertext.len() == plaintext@.len() + TAG_LEN
            &&& opening(key@, envelope@) == Some(plaintext@)
        },
        r matches Err(e) ==> e == EncryptionError::PlaintextTooLong,
{
    if !fits_key_stream(plaintext.len()) || plaintext.len() > usize::MAX - TAG_LEN {
        return Err(EncryptionError::PlaintextTooLong);
    }
    match seal_bytes(key.as_bytes(), nonce, plaintext) {
        Ok(ciphertext) => Ok(
            EncryptionEnvelope {
                request_id,
                content_type: content_type.to_owned(),
                nonce: slice_to_vec(nonce.as_slice()),
                ciphertext,
            },
        ),
        Err(_) => Err(EncryptionError::PlaintextTooLong),
    }
}

/// The cipher bound to one key: the read-only handle that every component
/// which seals or opens is given.
pub struct Engine {
    key: MasterKey,
}

impl Engine {
    /// The key that the engine seals and opens under.
    pub closed spec fn key(&self) -> Seq<u8> {
        self.key@
    }

    /// Binds the cipher to `key`.
    pub fn new(key: MasterKey) -> (engine: Engine)
        ensures
            engine.key() == key@,
    {
        Engine { key }
    }

    /// Loads the master key from its base64 form and binds the cipher to it.
    /// Fails, and so keeps the process from starting, on every secret that
    /// does not decode to exactly 32 bytes.
    pub fn from_secret(secret: &str) -> (r: Result<Engine, ConfigurationError>)
        ensures
            match r {
                Ok(engine) => key_from_secret(secret@) == Ok::<Seq<u8>, ConfigurationError>(
                    engine.key(),
                ),
                Err(e) => key_from_secret(secret@) == Err::<Seq<u8>, ConfigurationError>(e),
            },
            r is Ok <==> (base64_bytes(secret@) matches Some(raw) && raw.len() == KEY_LEN),
    {
        match MasterKey::from_base64(secret) {
            Ok(key) => Ok(Engine { key }),
            Err(e) => Err(e),
        }
    }

    /// Binds the cipher to a key that is made now and kept nowhere else.
    pub fn ephemeral() -> (engine: Engine)
        ensures
            engine.key().len() == KEY_LEN,
    {
        Engine { key: MasterKey::ephemeral() }
    }

    /// Encrypts a request body: has `ids` issue a request identifier, draws
    /// a fresh random nonce, and seals the body under them. The content type
    /// passes through unchanged, and the identifier differs from every one
    /// that `ids` issued before. Fails exactly where the body is too long to
    /// seal or no identifier is left, and then leaves `ids` as it was; what
    /// it returns opens to the body again under this engine.
    pub fn encrypt(&self, ids: &mut RequestIds, plaintext: &[u8], content_type: &str) -> (r:
        Result<EncryptionEnvelope, EncryptionError>)
        ensures
            r is Ok <==> can_seal(plaintext@.len() as int) && old(ids).floor() is Some,
            r matches Ok(envelope) ==> {
                &&& encrypts(envelope@, self.key(), plaintext@, content_type@)
                &&& !old(ids).issued().contains(envelope@.request_id)
                &&& final(ids).issued() == old(ids).issued().push(envelope@.request_id)
            },
            r matches Err(e) ==> {
                &&& e == if can_seal(plaintext@.len() as int) {
                    EncryptionError::IdentifiersExhausted
                } else {
                    EncryptionError::PlaintextTooLong
                }
                &&& final(ids).issued() == old(ids).issued()
                &&& final(ids).floor() == old(ids).floor()
            },
    {
        if !fits_key_stream(plaintext.len()) || plaintext.len() > usize::MAX - TAG_LEN {
            return Err(EncryptionError::PlaintextTooLong);
        }
        let request_id = match ids.issue() {
            Some(id) => id,
            None => {
                return Err(EncryptionError::IdentifiersExhausted);
            },
        };
        let nonce = fresh_nonce();
        seal_envelope(&self.key, request_id, content_type, &nonce, plaintext)
    }

    /// Opens an envelope. The plaintext is returned only if the ciphertext
    /// authenticates under this engine's key and the envelope's nonce; in
    /// every other case the result is an authentication failure and no byte
    /// of plaintext. An envelope with a nonce of another length than 24, with
    /// a ciphertext shorter than a tag, or with one longer than the cipher
    /// can have sealed, always fails.
    pub fn decrypt(&self, envelope: &EncryptionEnvelope) -> (r: Result<
        Vec<u8>,
        AuthenticationFailure,
    >)
        ensures
            match r {
                Ok(plaintext) => {
                    &&& opening(self.key(), envelope@) == Some(plaintext@)
                    &&& plaintext@.len() + TAG_LEN == envelope@.ciphertext.len()
                },
                Err(_) => opening(self.key(), envelope@) is None,
            },
            envelope@.nonce.len() != NONCE_LEN ==> r is Err,
            envelope@.ciphertext.len() < TAG_LEN ==> r is Err,
            !openable(envelope@.ciphertext.len() as int) ==> r is Err,
    {
        let len: usize = envelope.ciphertext.len();
        if len >= TAG_LEN && !fits_key_stream(len - TAG_LEN) {
            return Err(AuthenticationFailure);
        }
        match nonce_array(envelope.nonce.as_slice()) {
            Some(nonce) => match open_bytes(
                self.key.as_bytes(),
                &nonce,
                envelope.ciphertext.as_slice(),
            ) {
                Ok(plaintext) => Ok(plaintext),
                Err(_) => Err(AuthenticationFailure),
            },
            None => Err(AuthenticationFailure),
        }
    }
}

} // verus!
