//! XChaCha20-Poly1305 as the `chacha20poly1305` crate computes it, named so
//! that contracts can speak of its results.

use vstd::prelude::*;

verus! {

/// The error with which the `chacha20poly1305` crate refuses to seal or to open.
#[verifier::external_type_specification]
#[verifier::external_body]
pub struct ExAeadError(chacha20poly1305::Error);

/// The length of an extended nonce in bytes.
pub const NONCE_LEN: usize = 24;

/// The length of the authentication tag that ends every ciphertext.
pub const TAG_LEN: usize = 16;

/// The ciphertext, tag included, of `plaintext` under `key` and `nonce`.
pub uninterp spec fn sealed(key: Seq<u8>, nonce: Seq<u8>, plaintext: Seq<u8>) -> Seq<u8>;

/// The plaintext that `ciphertext` authenticates to under `key` and `nonce`,
/// or `None` where the tag does not verify.
pub uninterp spec fn opened(key: Seq<u8>, nonce: Seq<u8>, ciphertext: Seq<u8>) -> Option<Seq<u8>>;

/// The number of 64-byte key-stream blocks that the cipher has for one
/// message: the 32-bit block counter, less the block that keys the tag.
pub const MESSAGE_BLOCKS: usize = 4294967294;

/// Whether a message of `len` bytes fits in the key stream that the cipher
/// has for one nonce.
pub open spec fn sealable(len: int) -> bool {
    len / 64 < MESSAGE_BLOCKS || (len / 64 == MESSAGE_BLOCKS && len % 64 == 0)
}

/// Whether a ciphertext of `len` bytes may be handed to the cipher: it is
/// shorter than a tag, or what stands before its tag fits in the key stream.
pub open spec fn openable(len: int) -> bool {
    len < TAG_LEN || sealable(len - TAG_LEN)
}

/// `XChaCha20Poly1305::new(key).encrypt(nonce, plaintext)` with no associated
/// data. On a plaintext that fits in the key stream the crate succeeds; what
/// it returns is the plaintext's length plus a 16-byte tag long, and opens
/// again to the plaintext under the same key and nonce. On a longer plaintext
/// the crate fails or panics, and it allocates room for plaintext and tag at
/// once: `requires` leaves both out.
#[verifier::external_body]
pub(crate) fn seal_bytes(key: &[u8; 32], nonce: &[u8; 24], plaintext: &[u8]) -> (r: Result<
    Vec<u8>,
    chacha20poly1305::Error,
>)
    requires
        sealable(plaintext@.len() as int),
        plaintext@.len() + TAG_LEN <= usize::MAX,
    ensures
        r is Ok,
        r matches Ok(ciphertext) ==> {
            &&& ciphertext@ == sealed(key@, nonce@, plaintext@)
            &&& ciphertext@.len() == plaintext@.len() + TAG_LEN
            &&& opened(key@, nonce@, ciphertext@) == Some(plaintext@)
        },
{
    let cipher = <chacha20poly1305::XChaCha20Poly1305 as chacha20poly1305::KeyInit>::new(
        key.into(),
    );
    chacha20poly1305::aead::Aead::encrypt(&cipher, nonce.into(), plaintext)
}

/// `XChaCha20Poly1305::new(key).decrypt(nonce, ciphertext)` with no associated
/// data: the plaintext if the tag verifies, which is then 16 bytes shorter
/// than the ciphertext, and an error otherwise; a ciphertext shorter than a
/// tag never verifies. Where what stands before the tag does not fit in the
/// key stream, the crate may panic after the tag has verified: `requires`
/// leaves those lengths out.
#[verifier::external_body]
pub(crate) fn open_bytes(key: &[u8; 32], nonce: &[u8; 24], ciphertext: &[u8]) -> (r: Result<
    Vec<u8>,
    chacha20poly1305::Error,
>)
    requires
        openable(ciphertext@.len() as int),
    ensures
        match r {
            Ok(plaintext) => {
                &&& opened(key@, nonce@, ciphertext@) == Some(plaintext@)
                &&& plaintext@.len() + TAG_LEN == ciphertext@.len()
            },
            Err(_) => opened(key@, nonce@, ciphertext@) is None,
        },
        ciphertext@.len() < TAG_LEN ==> r is Err,
{
    let cipher = <chacha20poly1305::XChaCha20Poly1305 as chacha20poly1305::KeyInit>::new(
        key.into(),
    );
    chacha20poly1305::aead::Aead::decrypt(&cipher, nonce.into(), ciphertext)
}

/// Whether a message of `len` bytes fits in the key stream for one nonce.
pub fn fits_key_stream(len: usize) -> (fits: bool)
    ensures
        fits == sealable(len as int),
{
    len / 64 < MESSAGE_BLOCKS || (len / 64 == MESSAGE_BLOCKS && len % 64 == 0)
}

/// `XChaCha20Poly1305::generate_nonce(&mut OsRng)`: 24 bytes from the
/// operating system's random source. Nothing is known of them but their number.
#[verifier::external_body]
pub(crate) fn fresh_nonce() -> [u8; 24] {
    <chacha20poly1305::XChaCha20Poly1305 as chacha20poly1305::AeadCore>::generate_nonce(
        &mut rand_core::OsRng,
    ).into()
}

/// `XChaCha20Poly1305::generate_key(&mut OsRng)`: 32 bytes from the operating
/// system's random source. Nothing is known of them but their number.
#[verifier::external_body]
pub(crate) fn fresh_key_bytes() -> [u8; 32] {
    <chacha20poly1305::XChaCha20Poly1305 as chacha20poly1305::KeyInit>::generate_key(
        &mut rand_core::OsRng,
    ).into()
}

} // verus!
