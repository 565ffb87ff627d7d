//! The interactive mode: what the console and the transport give, read as
//! events for the session.
//!
//! A console line is read as a command and made into an order. An inbound
//! datagram is offered to the discovery codec first, and is payload only if
//! it is no discovery response. This is a guess, not a framing: a peer whose
//! payload happens to be a discovery response is taken for a discovery
//! server.
use vstd::prelude::*;
use crate::address::Address;
use crate::client::{
    binding_request, has_header, interpret_response, is_binding_request, response_of,
    stun_decoded, Decoded, BINDING_SUCCESS,
};
use crate::command::{parse, parse_command, Command, CommandView};
use crate::session::{
    relay_config, Event, EventView, Inbound, InboundView, Order, OrderView, RelayConfig,
};
use crate::Failure;

verus! {

/// Arguments of the interactive mode.
pub struct Args {
    /// The discovery or relay server, as `host:port`.
    pub server: String,
    /// Relay user name; with a password, the session starts on a relay.
    pub username: Option<String>,
    /// Relay password.
    pub password: Option<String>,
}

/// The relay credentials that `username` and `password` make: both, or none.
pub open spec fn paired(username: Option<String>, password: Option<String>) -> Option<
    (Seq<char>, Seq<char>),
> {
    match (username, password) {
        (Some(u), Some(p)) => Some((u@, p@)),
        _ => None,
    }
}

impl Args {
    /// The relay credentials, if a user name and a password were both given.
    pub fn credentials(&self) -> (r: Option<(String, String)>)
        ensures
            match paired(self.username, self.password) {
                Some((u, p)) => r matches Some(c) && c.0@ == u && c.1@ == p,
                None => r is None,
            },
    {
        match &self.username {
            Some(u) => match &self.password {
                Some(p) => Some((u.clone(), p.clone())),
                None => None,
            },
            None => None,
        }
    }
}

/// The order that `command` amounts to; `probe` is the discovery request to
/// send if the command asks for a probe.
pub open spec fn order_of(command: CommandView, probe: Seq<u8>) -> OrderView {
    match command {
        CommandView::Probe { target } => OrderView::Send { target, payload: probe },
        CommandView::RelaySwitch { server, username, password } => OrderView::Switch {
            config: relay_config(server, username, password),
        },
        CommandView::RawSend { target, payload } => OrderView::Send { target, payload },
    }
}

/// Makes `command` ready to be carried out. A probe sends `probe`; the other
/// commands do not use it.
pub fn order(command: Command, probe: Vec<u8>) -> (o: Order)
    ensures
        o@ == order_of(command@, probe@),
{
    match command {
        Command::Probe { target } => Order::Send { target, payload: probe },
        Command::RelaySwitch { server, username, password } => Order::Switch {
            config: RelayConfig::new(server.as_str(), username, password),
        },
        Command::RawSend { target, payload } => Order::Send { target, payload },
    }
}

/// Reads what the console gave.
///
/// A line becomes the order it stands for; a probe gets a fresh discovery
/// request as its payload. A console failure and a malformed relay switch
/// become the failure to report.
pub fn handle_line(line: Result<&str, std::io::Error>) -> (e: Event)
    ensures
        match line {
            Err(err) => e@ == EventView::Typed(Err(Failure::Io(err))),
            Ok(text) => match parse(text@) {
                None => e@ == EventView::Typed(Err(Failure::CommandSyntax)),
                Some(CommandView::Probe { target }) => exists|probe: Seq<u8>|
                    #![auto]
                    is_binding_request(probe) && e@ == EventView::Typed(
                        Ok(OrderView::Send { target, payload: probe }),
                    ),
                Some(c) => e@ == EventView::Typed(Ok(order_of(c, Seq::empty()))),
            },
        },
{
    match line {
        Err(err) => Event::Typed(Err(Failure::Io(err))),
        Ok(text) => match parse_command(text) {
            Err(f) => Event::Typed(Err(f)),
            Ok(command) => {
                let probe = match &command {
                    Command::Probe { .. } => binding_request(),
                    _ => Vec::new(),
                };
                Event::Typed(Ok(order(command, probe)))
            },
        },
    }
}

/// Judges an inbound datagram by what the codec read out of it.
///
/// A Binding success response is a discovery response. Everything else is
/// payload of the peer that sent it.
pub fn judge(decoded: Result<Decoded, stun::Error>, sender: Address, bytes: Vec<u8>) -> (i: Inbound)
    ensures
        match decoded {
            Ok(d) => if d.kind == BINDING_SUCCESS {
                i@ == InboundView::Response(d.mapped@)
            } else {
                i@ == (InboundView::Payload {
                    sender: sender@,
                    bytes: bytes@,
                    why: Failure::UnexpectedType(d.kind),
                })
            },
            Err(e) => i@ == (InboundView::Payload {
                sender: sender@,
                bytes: bytes@,
                why: Failure::Stun(e),
            }),
        },
{
    match interpret_response(decoded) {
        Ok(mapped) => Inbound::Response(mapped),
        Err(why) => Inbound::Payload { sender, bytes, why },
    }
}

/// Reads what the transport gave.
///
/// The datagram is offered to the discovery codec first. Only if it is no
/// discovery response is it taken as payload, untouched. A datagram without
/// a message header is always payload.
pub fn handle_recv(data: Result<(Vec<u8>, Address), webrtc_util::Error>) -> (e: Event)
    ensures
        match data {
            Err(err) => e@ == EventView::Heard(Err(Failure::Transport(err))),
            Ok((bytes, sender)) => match response_of(stun_decoded(bytes@)) {
                Some(a) => e@ == EventView::Heard(Ok(InboundView::Response(a))),
                None => e@ matches EventView::Heard(Ok(InboundView::Payload { sender: s, bytes: b, why }))
                    && s == sender@ && b == bytes@ && match stun_decoded(bytes@) {
                    Some((kind, _, _)) => why == Failure::UnexpectedType(kind),
                    None => why is Stun,
                },
            },
        },
        data matches Ok((bytes, _)) && !has_header(bytes@) ==> e@ matches EventView::Heard(
            Ok(InboundView::Payload { .. }),
        ),
{
    match data {
        Err(err) => Event::Heard(Err(Failure::Transport(err))),
        Ok((bytes, sender)) => {
            let decoded = crate::client::stun_decode(bytes.as_slice());
            Event::Heard(Ok(judge(decoded, sender, bytes)))
        },
    }
}

/// Picks the address to use out of what a name lookup gave: the first one.
pub fn lookup_one(found: Result<Vec<Address>, std::io::Error>) -> (r: Result<Address, Failure>)
    ensures
        match found {
            Err(e) => r == Err::<Address, Failure>(Failure::Io(e)),
            Ok(v) => if v.len() == 0 {
                r == Err::<Address, Failure>(Failure::NotFound)
            } else {
                r is Ok && r->Ok_0@ == v[0]@
            },
        },
{
    match found {
        Err(e) => Err(Failure::Io(e)),
        Ok(v) => {
            if v.len() == 0 {
                Err(Failure::NotFound)
            } else {
                Ok(v[0].duplicate())
            }
        },
    }
}

} // verus!
