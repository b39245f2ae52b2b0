//! The record that carries an envelope from the enclave to the host: four
//! text fields, written as one compact JSON object.

use vstd::prelude::*;
use vstd::string::StringSliceAdditionalSpecFns;
use crate::cipher::{NONCE_LEN, TAG_LEN};
use crate::config::text_view;
use crate::codec::{base64_bytes, base64_fits, base64_len, base64_text, from_base64, to_base64};
use crate::envelope::{EncryptionEnvelope, EnvelopeView};
use crate::error::{DeliveryError, EncryptionError};

verus! {

/// The JSON string literal of `text`, quotes and escapes included, in UTF-8.
pub uninterp spec fn json_string(text: Seq<char>) -> Seq<u8>;

/// `serde_json::to_vec` on a string slice: the text as one JSON string
/// literal. The crate writes the literal into a `Vec`, where no write fails,
/// so the error that it can report in general never comes.
#[verifier::external_body]
pub(crate) fn json_quote(text: &str) -> (quoted: Vec<u8>)
    ensures
        quoted@ == json_string(text@),
{
    serde_json::to_vec(text).unwrap_or_default()
}

/// The text of the member `name` of the JSON object that `document` holds, or
/// `None` where the document is not JSON, is not an object, has no such
/// member, or holds something other than a string there.
pub uninterp spec fn json_member_text(document: Seq<u8>, name: Seq<char>) -> Option<Seq<char>>;

/// `serde_json::from_slice` into a `serde_json::Value`, read once, and
/// `Map::get` on the object it holds for each of four names: under each name
/// the string that the document has there, if the document is a JSON object
/// with a string there.
#[verifier::external_body]
pub(crate) fn json_members(
    document: &[u8],
    first: &str,
    second: &str,
    third: &str,
    fourth: &str,
) -> (r: (Option<String>, Option<String>, Option<String>, Option<String>))
    ensures
        text_view(r.0) == json_member_text(document@, first@),
        text_view(r.1) == json_member_text(document@, second@),
        text_view(r.2) == json_member_text(document@, third@),
        text_view(r.3) == json_member_text(document@, fourth@),
{
    match serde_json::from_slice::<serde_json::Value>(document) {
        Ok(serde_json::Value::Object(members)) => (
            members.get(first).and_then(serde_json::Value::as_str).map(str::to_owned),
            members.get(second).and_then(serde_json::Value::as_str).map(str::to_owned),
            members.get(third).and_then(serde_json::Value::as_str).map(str::to_owned),
            members.get(fourth).and_then(serde_json::Value::as_str).map(str::to_owned),
        ),
        _ => (None, None, None, None),
    }
}

/// An envelope as it travels to the host, its binary fields in base64.
#[derive(Debug, Clone, PartialEq, Eq)]
pub struct StoreMsg {
    pub request_id: String,
    pub content_type: String,
    pub nonce_b64: String,
    pub ciphertext_b64: String,
}

/// A record as plain values.
pub struct StoreMsgView {
    pub request_id: Seq<char>,
    pub content_type: Seq<char>,
    pub nonce_b64: Seq<char>,
    pub ciphertext_b64: Seq<char>,
}

impl View for StoreMsg {
    type V = StoreMsgView;

    open spec fn view(&self) -> StoreMsgView {
        StoreMsgView {
            request_id: self.request_id@,
            content_type: self.content_type@,
            nonce_b64: self.nonce_b64@,
            ciphertext_b64: self.ciphertext_b64@,
        }
    }
}

/// The record of an envelope: the two texts as they are, the nonce and the
/// ciphertext in base64.
pub open spec fn record_of(envelope: EnvelopeView) -> StoreMsgView {
    StoreMsgView {
        request_id: envelope.request_id,
        content_type: envelope.content_type,
        nonce_b64: base64_text(envelope.nonce),
        ciphertext_b64: base64_text(envelope.ciphertext),
    }
}

/// Whether both binary fields of an envelope can be written as base64 here.
pub open spec fn recordable(envelope: EnvelopeView) -> bool {
    base64_fits(envelope.nonce.len() as int) && base64_fits(envelope.ciphertext.len() as int)
}

/// The envelope that a record carries, or `None` where the record is not
/// well formed: a field is not base64, the nonce has not 24 bytes, the
/// ciphertext is shorter than a tag, or the request identifier is empty.
pub open spec fn envelope_of(record: StoreMsgView) -> Option<EnvelopeView> {
    match (base64_bytes(record.nonce_b64), base64_bytes(record.ciphertext_b64)) {
        (Some(nonce), Some(ciphertext)) => if nonce.len() == NONCE_LEN && ciphertext.len()
            >= TAG_LEN && record.request_id.len() > 0 {
            Some(
                EnvelopeView {
                    request_id: record.request_id,
                    content_type: record.content_type,
                    nonce,
                    ciphertext,
                },
            )
        } else {
            None
        },
        _ => None,
    }
}

/// The bytes of a record on the wire: a JSON object with the members
/// `request_id`, `content_type`, `nonce_b64` and `ciphertext_b64`, in that
/// order and without white space.
pub open spec fn wire_bytes(record: StoreMsgView) -> Seq<u8> {
    "{\"request_id\":".spec_bytes() + json_string(record.request_id)
        + ",\"content_type\":".spec_bytes() + json_string(record.content_type)
        + ",\"nonce_b64\":".spec_bytes() + json_string(record.nonce_b64)
        + ",\"ciphertext_b64\":".spec_bytes() + json_string(record.ciphertext_b64)
        + "}".spec_bytes()
}

/// The record that a document on the wire holds, or `None` where one of the
/// four members is missing or is not a string.
pub open spec fn record_in(document: Seq<u8>) -> Option<StoreMsgView> {
    match (
        json_member_text(document, "request_id"@),
        json_member_text(document, "content_type"@),
        json_member_text(document, "nonce_b64"@),
        json_member_text(document, "ciphertext_b64"@),
    ) {
        (Some(request_id), Some(content_type), Some(nonce_b64), Some(ciphertext_b64)) => Some(
            StoreMsgView { request_id, content_type, nonce_b64, ciphertext_b64 },
        ),
        _ => None,
    }
}

/// What the host accepts of a document on the wire: the record in it, if
/// there is one and it carries a well-formed envelope.
pub open spec fn accepted(document: Seq<u8>) -> Option<StoreMsgView> {
    match record_in(document) {
        Some(record) => if envelope_of(record) is Some {
            Some(record)
        } else {
            None
        },
        None => None,
    }
}

/// Frames four JSON string literals, already quoted, as the members of a record.
pub fn frame_record(
    request_id: &[u8],
    content_type: &[u8],
    nonce_b64: &[u8],
    ciphertext_b64: &[u8],
) -> (out: Vec<u8>)
    ensures
        out@ == "{\"request_id\":".spec_bytes() + request_id@ + ",\"content_type\":".spec_bytes()
            + content_type@ + ",\"nonce_b64\":".spec_bytes() + nonce_b64@
            + ",\"ciphertext_b64\":".spec_bytes() + ciphertext_b64@ + "}".spec_bytes(),
{
    let mut out: Vec<u8> = Vec::new();
    out.extend_from_slice("{\"request_id\":".as_bytes());
    out.extend_from_slice(request_id);
    out.extend_from_slice(",\"content_type\":".as_bytes());
    out.extend_from_slice(content_type);
    out.extend_from_slice(",\"nonce_b64\":".as_bytes());
    out.extend_from_slice(nonce_b64);
    out.extend_from_slice(",\"ciphertext_b64\":".as_bytes());
    out.extend_from_slice(ciphertext_b64);
    out.extend_from_slice("}".as_bytes());
    out
}

impl StoreMsg {
    /// Writes an envelope as a record. Fails only where a binary field is too
    /// long for its base64 text to fit in memory. The record carries the
    /// envelope: reading it back gives the same envelope, if the envelope has
    /// a request identifier, a 24-byte nonce and a ciphertext with its tag.
    pub fn from_envelope(envelope: &EncryptionEnvelope) -> (r: Result<StoreMsg, EncryptionError>)
        ensures
            r is Ok <==> recordable(envelope@),
            r matches Ok(record) ==> {
                &&& record@ == record_of(envelope@)
                &&& record@.nonce_b64.len() == base64_len(envelope@.nonce.len() as int)
                &&& record@.ciphertext_b64.len() == base64_len(envelope@.ciphertext.len() as int)
                &&& (envelope@.nonce.len() == NONCE_LEN && envelope@.ciphertext.len() >= TAG_LEN
                    && envelope@.request_id.len() > 0) ==> envelope_of(record@) == Some(
                    envelope@,
                )
            },
            r matches Err(e) ==> e == EncryptionError::RecordTooLong,
    {
        let nonce_b64 = match to_base64(envelope.nonce.as_slice()) {
            Some(text) => text,
            None => {
                return Err(EncryptionError::RecordTooLong);
            },
        };
        let ciphertext_b64 = match to_base64(envelope.ciphertext.as_slice()) {
            Some(text) => text,
            None => {
                return Err(EncryptionError::RecordTooLong);
            },
        };
        Ok(
            StoreMsg {
                request_id: envelope.request_id.clone(),
                content_type: envelope.content_type.clone(),
                nonce_b64,
                ciphertext_b64,
            },
        )
    }

    /// Reads the envelope out of a record, as the host does before it files
    /// the ciphertext. Accepts exactly the well-formed records.
    pub fn to_envelope(&self) -> (r: Result<EncryptionEnvelope, DeliveryError>)
        ensures
            match r {
                Ok(envelope) => envelope_of(self@) == Some(envelope@),
                Err(e) => envelope_of(self@) is None && e == DeliveryError::Malformed,
            },
    {
        let nonce = match from_base64(self.nonce_b64.as_str()) {
            Some(bytes) => bytes,
            None => {
                return Err(DeliveryError::Malformed);
            },
        };
        let ciphertext = match from_base64(self.ciphertext_b64.as_str()) {
            Some(bytes) => bytes,
            None => {
                return Err(DeliveryError::Malformed);
            },
        };
        if nonce.len() != NONCE_LEN || ciphertext.len() < TAG_LEN || self.request_id.as_str().is_empty() {
            return Err(DeliveryError::Malformed);
        }
        Ok(
            EncryptionEnvelope {
                request_id: self.request_id.clone(),
                content_type: self.content_type.clone(),
                nonce,
                ciphertext,
            },
        )
    }

    /// Reads a record from the bytes of a JSON object. Members other than the
    /// four of a record are passed over.
    pub fn from_wire(document: &[u8]) -> (r: Result<StoreMsg, DeliveryError>)
        ensures
            match r {
                Ok(record) => record_in(document@) == Some(record@),
                Err(e) => record_in(document@) is None && e == DeliveryError::Malformed,
            },
    {
        match json_members(document, "request_id", "content_type", "nonce_b64", "ciphertext_b64") {
            (Some(request_id), Some(content_type), Some(nonce_b64), Some(ciphertext_b64)) => Ok(
                StoreMsg { request_id, content_type, nonce_b64, ciphertext_b64 },
            ),
            _ => Err(DeliveryError::Malformed),
        }
    }

    /// The record as it is written to the delivery channel.
    pub fn to_wire(&self) -> (out: Vec<u8>)
        ensures
            out@ == wire_bytes(self@),
    {
        let request_id = json_quote(self.request_id.as_str());
        let content_type = json_quote(self.content_type.as_str());
        let nonce_b64 = json_quote(self.nonce_b64.as_str());
        let ciphertext_b64 = json_quote(self.ciphertext_b64.as_str());
        frame_record(
            request_id.as_slice(),
            content_type.as_slice(),
            nonce_b64.as_slice(),
            ciphertext_b64.as_slice(),
        )
    }
}

/// The host's side of the delivery channel: takes a document off the wire
/// and accepts it only if it is a record that carries a well-formed envelope.
/// What is accepted is filed under its request identifier as it came: the
/// host opens nothing and holds no key.
pub fn accept_record(document: &[u8]) -> (r: Result<StoreMsg, DeliveryError>)
    ensures
        match r {
            Ok(record) => accepted(document@) == Some(record@),
            Err(e) => accepted(document@) is None && e == DeliveryError::Malformed,
        },
{
    let record = match StoreMsg::from_wire(document) {
        Ok(record) => record,
        Err(e) => {
            return Err(e);
        },
    };
    match record.to_envelope() {
        Ok(_) => Ok(record),
        Err(e) => Err(e),
    }
}

} // verus!
