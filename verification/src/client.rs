//! Discovery requests and responses.
//!
//! The wire format belongs to the `stun` crate. This module calls it and adds
//! one rule of its own: only a Binding success response counts as a
//! discovery response.
use vstd::prelude::*;
use crate::address::{Address, AddressView};
use crate::Failure;

verus! {

/// Arguments of the client mode.
pub struct Args {
    /// The discovery servers to ask, each as `host:port`.
    pub servers: Vec<String>,
}

/// Length of the header that starts every discovery message.
pub const HEADER_LEN: usize = 20;

/// Type field of a Binding success response.
pub const BINDING_SUCCESS: u16 = 0x0101;

/// The magic cookie, which every discovery message holds in the fifth to
/// eighth byte of its header.
pub open spec fn magic_cookie() -> Seq<u8> {
    seq![0x21u8, 0x12u8, 0xA4u8, 0x42u8]
}

/// Whether `bytes` is long enough for a header and holds the magic cookie in
/// its place. No other buffer is a discovery message.
pub open spec fn has_header(bytes: Seq<u8>) -> bool {
    bytes.len() >= HEADER_LEN && bytes.subrange(4, 8) == magic_cookie()
}

/// The bytes that every Binding request without attributes starts with: its
/// type, a zero length, and the magic cookie.
pub open spec fn request_prefix() -> Seq<u8> {
    seq![0x00u8, 0x01u8, 0x00u8, 0x00u8, 0x21u8, 0x12u8, 0xA4u8, 0x42u8]
}

/// Whether `bytes` is a Binding request without attributes: the fixed prefix
/// followed by a transaction identifier of twelve bytes.
pub open spec fn is_binding_request(bytes: Seq<u8>) -> bool {
    bytes.len() == HEADER_LEN && bytes.subrange(0, 8) == request_prefix()
}

/// What the codec reads out of a buffer: the message's type field and the
/// endpoint of its XOR-MAPPED-ADDRESS attribute.
#[derive(Debug, PartialEq, Eq)]
pub struct Decoded {
    pub kind: u16,
    pub mapped: Address,
}

/// What the `stun` crate makes of `bytes`: the type field, and the IP literal
/// and port of the XOR-MAPPED-ADDRESS attribute; `None` where it rejects the
/// buffer or finds no such attribute.
pub uninterp spec fn stun_decoded(bytes: Seq<u8>) -> Option<(u16, Seq<char>, u16)>;

/// Builds a Binding request with the calls of the `stun` crate that make
/// one: `Message::new`, the type set to Binding request,
/// `Message::new_transaction_id`, `Message::encode`,
/// `Message::marshal_binary`. The identifier is random, so the contract gives
/// only what `Message::write_header` writes in every case: twenty bytes, of
/// which the first eight are the type, a zero length and the magic cookie.
/// Neither fallible call fails: both end in `Ok`.
#[verifier::external_body]
fn stun_binding_request() -> (bytes: Vec<u8>)
    ensures
        is_binding_request(bytes@),
{
    let mut msg = stun::message::Message::new();
    msg.typ.method = stun::message::METHOD_BINDING;
    msg.typ.class = stun::message::CLASS_REQUEST;
    msg.new_transaction_id().unwrap();
    msg.encode();
    msg.marshal_binary().unwrap()
}

/// Decodes `buf` with `Message::unmarshal_binary` of the `stun` crate, reads
/// the XOR-MAPPED-ADDRESS attribute with `Message::parse`, and takes the type
/// field from `MessageType::value`. All three are functions of the buffer
/// alone, so what comes out is what `stun_decoded` names: on success the
/// type, the IP address in its text form and the port; on an error of either
/// call nothing, and the error is handed on. Of the buffers that are
/// rejected the contract names two sorts, those that `Message::decode` turns
/// down first: a buffer shorter than a header, and one without the magic
/// cookie.
#[verifier::external_body]
pub(crate) fn stun_decode(buf: &[u8]) -> (r: Result<Decoded, stun::Error>)
    ensures
        match r {
            Ok(d) => stun_decoded(buf@) == Some((d.kind, d.mapped.ip@, d.mapped.port)),
            Err(_) => stun_decoded(buf@) is None,
        },
        r is Ok ==> has_header(buf@),
{
    let mut msg = stun::message::Message::new();
    msg.unmarshal_binary(buf)?;
    let mut xor = [stun::xoraddr::XorMappedAddress::default()];
    msg.parse(&mut xor)?;
    let mapped = Address { ip: xor[0].ip.to_string(), port: xor[0].port };
    Ok(Decoded { kind: msg.typ.value(), mapped })
}

/// A fresh discovery request.
///
/// The transaction identifier is random; the rest of the message is fixed.
pub fn binding_request() -> (bytes: Vec<u8>)
    ensures
        is_binding_request(bytes@),
{
    stun_binding_request()
}

/// What a decoded buffer means: the mapped endpoint if the message is a
/// Binding success response, nothing otherwise.
pub open spec fn response_of(decoded: Option<(u16, Seq<char>, u16)>) -> Option<AddressView> {
    match decoded {
        Some((kind, ip, port)) => if kind == BINDING_SUCCESS {
            Some(AddressView { ip, port })
        } else {
            None
        },
        None => None,
    }
}

/// Judges what the codec read out of a buffer.
///
/// A Binding success response yields its mapped endpoint. A message of
/// another type is refused with the type found, and a codec failure is
/// handed on.
pub fn interpret_response(decoded: Result<Decoded, stun::Error>) -> (r: Result<Address, Failure>)
    ensures
        match decoded {
            Ok(d) => if d.kind == BINDING_SUCCESS {
                r == Ok::<Address, Failure>(d.mapped)
            } else {
                r == Err::<Address, Failure>(Failure::UnexpectedType(d.kind))
            },
            Err(e) => r == Err::<Address, Failure>(Failure::Stun(e)),
        },
{
    match decoded {
        Ok(d) => {
            if d.kind == BINDING_SUCCESS {
                Ok(d.mapped)
            } else {
                Err(Failure::UnexpectedType(d.kind))
            }
        },
        Err(e) => Err(Failure::Stun(e)),
    }
}

/// Reads `buf` as a discovery response.
///
/// Succeeds exactly when the codec accepts the buffer, finds a mapped
/// endpoint in it, and the message is a Binding success response. A buffer
/// without a message header is always refused.
pub fn binding_response(buf: &[u8]) -> (r: Result<Address, Failure>)
    ensures
        match response_of(stun_decoded(buf@)) {
            Some(a) => r is Ok && r->Ok_0@ == a,
            None => r is Err,
        },
        r is Err ==> match stun_decoded(buf@) {
            Some((kind, _, _)) => r->Err_0 == Failure::UnexpectedType(kind),
            None => r->Err_0 is Stun,
        },
        !has_header(buf@) ==> r is Err && r->Err_0 is Stun,
{
    interpret_response(stun_decode(buf))
}

} // verus!
