//! Standard base64 with canonical padding, as the `base64` crate computes it.

use vstd::prelude::*;

verus! {

/// The error with which the `base64` crate rejects a text.
#[verifier::external_type_specification]
#[verifier::external_body]
pub struct ExDecodeError(base64::DecodeError);

/// The padded standard-alphabet base64 text of `bytes`.
pub uninterp spec fn base64_text(bytes: Seq<u8>) -> Seq<char>;

/// The bytes that a base64 text stands for, or `None` where the text is rejected.
pub uninterp spec fn base64_bytes(text: Seq<char>) -> Option<Seq<u8>>;

/// The number of characters in the padded base64 text of `len` bytes.
pub open spec fn base64_len(len: int) -> int {
    4 * ((len + 2) / 3)
}

/// Whether the base64 text of `len` bytes can be allocated on this machine.
pub open spec fn base64_fits(len: int) -> bool {
    len / 3 < usize::MAX / 4
}

/// `base64::engine::general_purpose::STANDARD.encode`: the text is the padded
/// base64 of `bytes`, has four characters for every started group of three
/// bytes, and decodes back to `bytes`. The crate panics where the length of
/// the text overflows `usize`, which `requires` leaves out.
#[verifier::external_body]
fn encode_standard(bytes: &[u8]) -> (text: String)
    requires
        base64_fits(bytes@.len() as int),
    ensures
        text@ == base64_text(bytes@),
        text@.len() == base64_len(bytes@.len() as int),
        base64_bytes(text@) == Some(bytes@),
{
    base64::Engine::encode(&base64::engine::general_purpose::STANDARD, bytes)
}

/// `base64::engine::general_purpose::STANDARD.decode`: succeeds exactly on the
/// texts that stand for some bytes, and then returns those bytes.
#[verifier::external_body]
fn decode_standard(text: &str) -> (r: Result<Vec<u8>, base64::DecodeError>)
    ensures
        match r {
            Ok(bytes) => base64_bytes(text@) == Some(bytes@),
            Err(_) => base64_bytes(text@) is None,
        },
{
    base64::Engine::decode(&base64::engine::general_purpose::STANDARD, text)
}

/// Whether the base64 text of `len` bytes can be allocated on this machine.
pub fn base64_has_room(len: usize) -> (fits: bool)
    ensures
        fits == base64_fits(len as int),
{
    len / 3 < usize::MAX / 4
}

/// Writes `bytes` as base64, or returns `None` where the text would not fit in memory.
pub fn to_base64(bytes: &[u8]) -> (r: Option<String>)
    ensures
        match r {
            Some(text) => {
                &&& base64_fits(bytes@.len() as int)
                &&& text@ == base64_text(bytes@)
                &&& text@.len() == base64_len(bytes@.len() as int)
                &&& base64_bytes(text@) == Some(bytes@)
            },
            None => !base64_fits(bytes@.len() as int),
        },
{
    if base64_has_room(bytes.len()) {
        Some(encode_standard(bytes))
    } else {
        None
    }
}

/// Reads a base64 text: the bytes it stands for, or `None` where it is not canonical base64.
pub fn from_base64(text: &str) -> (r: Option<Vec<u8>>)
    ensures
        match r {
            Some(bytes) => base64_bytes(text@) == Some(bytes@),
            None => base64_bytes(text@) is None,
        },
{
    match decode_standard(text) {
        Ok(bytes) => Some(bytes),
        Err(_) => None,
    }
}

} // verus!
