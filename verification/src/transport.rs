//! The shapes in which a scraping request arrives, and their decoding into
//! one list of product codes.

use crate::wire::{product_codes_of, AmznScrapingRequest, WireError};
use base64::Engine;
use std::collections::HashMap;
use vstd::prelude::*;
use vstd::utf8::encode_utf8;

verus! {

/// A push notification as the message service delivers it.
#[derive(Debug)]
pub struct PubSubMessage {
    pub message: PubSubMessageMessage,
    pub subscription: String,
}

/// The message inside a push notification. `data` is the scraping request in
/// its wire format, base64-encoded; the other fields are delivery metadata.
#[allow(non_snake_case)]
#[derive(Debug)]
pub struct PubSubMessageMessage {
    pub attributes: HashMap<String, String>,
    pub data: String,
    pub messageId: String,
    pub message_id: String,
    pub publishTime: String,
    pub publish_time: String,
}

/// How a payload reached the service.
#[derive(Debug, Clone, Copy, PartialEq, Eq, Structural)]
pub enum TransportKind {
    /// The `data` of a push notification: base64 text around the wire format.
    EnvelopedPush,
    /// A request body in the wire format.
    RawWire,
    /// A publication on the broker's topic, in the wire format.
    BrokerPublication,
}

/// Why a payload holds no scraping request.
#[derive(Debug, Clone, Copy, PartialEq, Eq, Structural)]
pub enum DecodeFailure {
    /// The envelope's data is not base64.
    InvalidBase64,
    /// The bytes are not a request in the wire format.
    InvalidWire(WireError),
}

#[verifier::external_type_specification]
#[verifier::external_body]
pub struct ExBase64DecodeError(base64::DecodeError);

/// What `Engine::decode` of base64's `STANDARD` engine makes of an input: the
/// decoded bytes, or nothing where it reports an error.
pub uninterp spec fn base64_standard_decoding(input: Seq<u8>) -> Option<Seq<u8>>;

/// `Engine::decode` on the engine `general_purpose::STANDARD`: the standard
/// alphabet with canonical padding. Only the name of the result is claimed.
#[verifier::external_body]
fn base64_decode(input: &[u8]) -> (r: Result<Vec<u8>, base64::DecodeError>)
    ensures
        r is Ok <==> base64_standard_decoding(input@) is Some,
        r is Ok ==> r.unwrap()@ == base64_standard_decoding(input@).unwrap(),
{
    base64::engine::general_purpose::STANDARD.decode(input)
}

/// The request that bytes in the wire format hold.
pub open spec fn wire_request(bytes: Seq<u8>) -> Result<Seq<Seq<char>>, DecodeFailure> {
    match product_codes_of(bytes) {
        Err(e) => Err(DecodeFailure::InvalidWire(e)),
        Ok(codes) => Ok(codes),
    }
}

/// The request that a payload of the given kind holds, when `unwrapped` is
/// what the base64 decoding makes of the payload.
pub open spec fn request_of(payload: Seq<u8>, kind: TransportKind, unwrapped: Option<Seq<u8>>) -> Result<
    Seq<Seq<char>>,
    DecodeFailure,
> {
    match kind {
        TransportKind::EnvelopedPush => match unwrapped {
            None => Err(DecodeFailure::InvalidBase64),
            Some(bytes) => wire_request(bytes),
        },
        TransportKind::RawWire => wire_request(payload),
        TransportKind::BrokerPublication => wire_request(payload),
    }
}

/// Decodes bytes in the wire format.
pub fn decode_wire(bytes: &[u8]) -> (r: Result<AmznScrapingRequest, DecodeFailure>)
    ensures
        match r {
            Err(e) => wire_request(bytes@) == Err::<Seq<Seq<char>>, DecodeFailure>(e),
            Ok(request) => wire_request(bytes@) == Ok::<Seq<Seq<char>>, DecodeFailure>(request@),
        },
{
    match AmznScrapingRequest::decode(bytes) {
        Err(e) => Err(DecodeFailure::InvalidWire(e)),
        Ok(request) => Ok(request),
    }
}

/// Decodes the base64 text of an envelope's data, then the wire format
/// inside it.
pub fn decode_enveloped(data: &[u8]) -> (r: Result<AmznScrapingRequest, DecodeFailure>)
    ensures
        match r {
            Err(e) => request_of(
                data@,
                TransportKind::EnvelopedPush,
                base64_standard_decoding(data@),
            ) == Err::<Seq<Seq<char>>, DecodeFailure>(e),
            Ok(request) => request_of(
                data@,
                TransportKind::EnvelopedPush,
                base64_standard_decoding(data@),
            ) == Ok::<Seq<Seq<char>>, DecodeFailure>(request@),
        },
{
    match base64_decode(data) {
        Err(_) => Err(DecodeFailure::InvalidBase64),
        Ok(bytes) => decode_wire(bytes.as_slice()),
    }
}

/// Decodes a payload that arrived over the given transport. For an enveloped
/// push the payload is the envelope's data.
pub fn decode(payload: &[u8], kind: TransportKind) -> (r: Result<AmznScrapingRequest, DecodeFailure>)
    ensures
        match r {
            Err(e) => request_of(payload@, kind, base64_standard_decoding(payload@)) == Err::<
                Seq<Seq<char>>,
                DecodeFailure,
            >(e),
            Ok(request) => request_of(payload@, kind, base64_standard_decoding(payload@)) == Ok::<
                Seq<Seq<char>>,
                DecodeFailure,
            >(request@),
        },
{
    match kind {
        TransportKind::EnvelopedPush => decode_enveloped(payload),
        TransportKind::RawWire => decode_wire(payload),
        TransportKind::BrokerPublication => decode_wire(payload),
    }
}

impl PubSubMessage {
    /// Decodes the request that the notification carries.
    pub fn decode_request(&self) -> (r: Result<AmznScrapingRequest, DecodeFailure>)
        ensures
            match r {
                Err(e) => request_of(
                    encode_utf8(self.message.data@),
                    TransportKind::EnvelopedPush,
                    base64_standard_decoding(encode_utf8(self.message.data@)),
                ) == Err::<Seq<Seq<char>>, DecodeFailure>(e),
                Ok(request) => request_of(
                    encode_utf8(self.message.data@),
                    TransportKind::EnvelopedPush,
                    base64_standard_decoding(encode_utf8(self.message.data@)),
                ) == Ok::<Seq<Seq<char>>, DecodeFailure>(request@),
            },
    {
        decode_enveloped(self.message.data.as_str().as_bytes())
    }
}

} // verus!
