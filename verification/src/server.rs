//! The discovery server: one reply per request, no state.
use vstd::prelude::*;
use crate::address::Address;
use crate::client::{has_header, BINDING_SUCCESS};
use crate::Failure;

verus! {

/// Arguments of the server mode.
pub struct Args {
    /// The local endpoint to listen on, as `host:port`.
    pub listen: String,
}

/// The message of type `kind` that the `stun` crate builds in reply to
/// `request`: it carries the request's transaction identifier, and the
/// endpoint `ip`, `port` as XOR-MAPPED-ADDRESS. `None` where the crate rejects
/// the request or the literal.
pub uninterp spec fn stun_replied(request: Seq<u8>, kind: u16, ip: Seq<char>, port: u16) -> Option<
    Seq<u8>,
>;

/// Builds the reply of type `kind` to `request` for a sender seen at `ip`,
/// `port`, with the calls of the `stun` crate that make one:
/// `Message::unmarshal_binary` on the request, `MessageType::read_value` on
/// `kind`, `Message::build` with that type and an `XorMappedAddress`,
/// `Message::encode`, `Message::marshal_binary`. Each of them is a function
/// of its arguments alone, so the bytes that come out are the ones that
/// `stun_replied` names. An error of the crate is handed on; a literal that
/// is no IP address comes back as `ErrBadIpLength`. A request shorter than a
/// header, or without the magic cookie, is one that `Message::decode` turns
/// down.
#[verifier::external_body]
fn stun_reply(request: &[u8], kind: u16, ip: &str, port: u16) -> (r: Result<Vec<u8>, stun::Error>)
    ensures
        match r {
            Ok(bytes) => stun_replied(request@, kind, ip@, port) == Some(bytes@),
            Err(_) => stun_replied(request@, kind, ip@, port) is None,
        },
        r is Ok ==> has_header(request@),
{
    let mut msg = stun::message::Message::default();
    msg.unmarshal_binary(request)?;
    let Ok(ip) = ip.parse() else {
        return Err(stun::Error::ErrBadIpLength);
    };
    let mut typ = stun::message::MessageType::default();
    typ.read_value(kind);
    msg.build(&[Box::new(typ), Box::new(stun::xoraddr::XorMappedAddress { ip, port })])?;
    msg.encode();
    msg.marshal_binary()
}

impl Args {
    /// The reply to `request`, received from `from`.
    ///
    /// The reply is a Binding success response that repeats the request's
    /// transaction identifier and reports `from` as the mapped endpoint. A
    /// request that the codec rejects gets no reply, and so none that lacks
    /// a message header.
    pub fn handle_one(request: &[u8], from: &Address) -> (r: Result<Vec<u8>, Failure>)
        ensures
            match stun_replied(request@, BINDING_SUCCESS, from@.ip, from@.port) {
                Some(bytes) => r is Ok && r->Ok_0@ == bytes,
                None => r is Err && r->Err_0 is Stun,
            },
            !has_header(request@) ==> r is Err,
    {
        match stun_reply(request, BINDING_SUCCESS, from.ip.as_str(), from.port) {
            Ok(bytes) => Ok(bytes),
            Err(e) => Err(Failure::Stun(e)),
        }
    }
}

} // verus!
