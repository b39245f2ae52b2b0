//! The request terminator: what the enclave does with a request body once
//! TLS has been taken off, and what it answers.

use vstd::prelude::*;
use vstd::string::StringSliceAdditionalSpecFns;
use crate::cipher::TAG_LEN;
use crate::cipher::{fits_key_stream, NONCE_LEN};
use crate::codec::{base64_fits, base64_has_room, base64_len};
use crate::envelope::{can_seal, encrypts, opening, Engine, EnvelopeView};
use crate::error::{AuthenticationFailure, DeliveryError, EncryptionError};
use crate::request_id::{lemma_lower_hex_nonempty, lower_hex, RequestIds};
use crate::wire::{envelope_of, json_quote, json_string, record_of, StoreMsg};

verus! {

/// The status of the answer to a request whose body was sealed.
pub const STATUS_CREATED: u16 = 201;

/// The status of the answer that carries a stored body back.
pub const STATUS_OK: u16 = 200;

/// The status of the answer to a request whose body could not be sealed.
pub const STATUS_INTERNAL_SERVER_ERROR: u16 = 500;

/// An answer to the client: a status code and a body.
#[derive(Debug, Clone, PartialEq, Eq)]
pub struct Reply {
    pub status: u16,
    pub body: Vec<u8>,
}

/// An answer as plain values.
pub struct ReplyView {
    pub status: u16,
    pub body: Seq<u8>,
}

impl View for Reply {
    type V = ReplyView;

    open spec fn view(&self) -> ReplyView {
        ReplyView { status: self.status, body: self.body@ }
    }
}

/// A sealed request: the record for the host, and the answer for the client.
#[derive(Debug, Clone, PartialEq, Eq)]
pub struct Stored {
    pub record: StoreMsg,
    pub reply: Reply,
}

/// The content type under which every request body is filed.
pub open spec fn filed_content_type() -> Seq<char> {
    "application/octet-stream"@
}

/// The body of the acknowledgement: a JSON object with the request
/// identifier and the status `stored`.
pub open spec fn stored_body(request_id: Seq<char>) -> Seq<u8> {
    "{\"request_id\":".spec_bytes() + json_string(request_id)
        + ",\"status\":\"stored\"}".spec_bytes()
}

/// The acknowledgement of the request that was filed under `request_id`.
pub open spec fn stored_reply(request_id: Seq<char>) -> ReplyView {
    ReplyView { status: STATUS_CREATED, body: stored_body(request_id) }
}

/// Whether a body of `len` bytes can be sealed and written as a record here.
pub open spec fn storable(len: int) -> bool {
    can_seal(len) && base64_fits(len + TAG_LEN)
}

/// Whether `stored` is what sealing `body` under `key` gives: its record
/// carries an envelope that encrypts the body, with the nonce and the sealed
/// body in base64 texts of the lengths that base64 gives them, and its reply
/// acknowledges the record's own request identifier.
pub open spec fn stores(stored: Stored, key: Seq<u8>, body: Seq<u8>) -> bool {
    &&& stored.record@.nonce_b64.len() == base64_len(NONCE_LEN as int)
    &&& stored.record@.ciphertext_b64.len() == base64_len(body.len() + TAG_LEN)
    &&& exists|envelope: EnvelopeView|
        {
            &&& #[trigger] encrypts(envelope, key, body, filed_content_type())
            &&& stored.record@ == record_of(envelope)
            &&& envelope_of(stored.record@) == Some(envelope)
            &&& stored.reply@ == stored_reply(envelope.request_id)
        }
}

/// Why a body of `len` bytes is refused: it is too long to seal, or else its
/// record is too long to write, or else no request identifier is left.
pub open spec fn refused_as(len: int) -> EncryptionError {
    if !can_seal(len) {
        EncryptionError::PlaintextTooLong
    } else if !base64_fits(len + TAG_LEN) {
        EncryptionError::RecordTooLong
    } else {
        EncryptionError::IdentifiersExhausted
    }
}

/// The acknowledgement for a request identifier.
pub fn acknowledgement(request_id: &str) -> (reply: Reply)
    ensures
        reply@ == stored_reply(request_id@),
{
    let mut body: Vec<u8> = Vec::new();
    body.extend_from_slice("{\"request_id\":".as_bytes());
    let quoted = json_quote(request_id);
    body.extend_from_slice(quoted.as_slice());
    body.extend_from_slice(",\"status\":\"stored\"}".as_bytes());
    assert(body@ =~= stored_body(request_id@));
    Reply { status: STATUS_CREATED, body }
}

/// The answer to a request whose body could not be sealed: an internal
/// error, and no body.
pub fn refusal(error: EncryptionError) -> (reply: Reply)
    ensures
        reply@ == (ReplyView { status: STATUS_INTERNAL_SERVER_ERROR, body: Seq::empty() }),
{
    Reply { status: STATUS_INTERNAL_SERVER_ERROR, body: Vec::new() }
}

/// Handles the body of one `POST /private-data`: seals it under a request
/// identifier that `ids` has not issued before, and returns the record to
/// hand to the delivery channel together with the acknowledgement. Succeeds
/// on every body that can be sealed and written on this machine while an
/// identifier is left, and on no other; where it fails, the request must not
/// be acknowledged, and `ids` is as it was.
pub fn private_data(engine: &Engine, ids: &mut RequestIds, body: &[u8]) -> (r: Result<
    Stored,
    EncryptionError,
>)
    ensures
        r is Ok <==> storable(body@.len() as int) && old(ids).floor() is Some,
        r matches Ok(stored) ==> {
            &&& stores(stored, engine.key(), body@)
            &&& !old(ids).issued().contains(stored.record@.request_id)
            &&& final(ids).issued() == old(ids).issued().push(stored.record@.request_id)
        },
        r matches Err(e) ==> {
            &&& e == refused_as(body@.len() as int)
            &&& final(ids).issued() == old(ids).issued()
            &&& final(ids).floor() == old(ids).floor()
        },
{
    if !fits_key_stream(body.len()) || body.len() > usize::MAX - TAG_LEN {
        return Err(EncryptionError::PlaintextTooLong);
    }
    if !base64_has_room(body.len() + TAG_LEN) {
        return Err(EncryptionError::RecordTooLong);
    }
    let envelope = match engine.encrypt(ids, body, "application/octet-stream") {
        Ok(envelope) => envelope,
        Err(e) => {
            return Err(e);
        },
    };
    let record = match StoreMsg::from_envelope(&envelope) {
        Ok(record) => record,
        Err(e) => {
            return Err(e);
        },
    };
    let reply = acknowledgement(record.request_id.as_str());
    proof {
        let nanos = choose|nanos: nat|
            nanos <= u128::MAX && envelope@.request_id == #[trigger] lower_hex(nanos);
        lemma_lower_hex_nonempty(nanos);
    }
    let stored = Stored { record, reply };
    assert(encrypts(envelope@, engine.key(), body@, filed_content_type()));
    Ok(stored)
}

impl Stored {
    /// The answer to the client once the delivery channel has reported back.
    /// It is the acknowledgement whatever the channel reports: a failed
    /// delivery is for the caller to log, and the client is not told.
    pub fn reply_after_delivery(&self, delivery: &Result<(), DeliveryError>) -> (reply: Reply)
        ensures
            reply@ == self.reply@,
    {
        Reply { status: self.reply.status, body: self.reply.body.clone() }
    }
}

/// Handles one `GET /private-data` for a record that the storage side has
/// looked up: opens it and answers with the plaintext. A record that is not
/// well formed, or that does not authenticate under the engine's key, gives
/// an authentication failure and nothing else.
pub fn read_private_data(engine: &Engine, record: &StoreMsg) -> (r: Result<
    Reply,
    AuthenticationFailure,
>)
    ensures
        match r {
            Ok(reply) => {
                &&& envelope_of(record@) matches Some(envelope)
                &&& opening(engine.key(), envelope) == Some(reply@.body)
                &&& reply@.status == STATUS_OK
            },
            Err(_) => envelope_of(record@) matches Some(envelope) ==> opening(
                engine.key(),
                envelope,
            ) is None,
        },
{
    let envelope = match record.to_envelope() {
        Ok(envelope) => envelope,
        Err(_) => {
            return Err(AuthenticationFailure);
        },
    };
    match engine.decrypt(&envelope) {
        Ok(plaintext) => Ok(Reply { status: STATUS_OK, body: plaintext }),
        Err(e) => Err(e),
    }
}

} // verus!
