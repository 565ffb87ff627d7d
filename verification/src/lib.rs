//! Decision logic of a NAT-traversal console.
//!
//! The console discovers the address under which a host is seen from outside,
//! may move its traffic onto a relay, and lets an operator exchange datagrams
//! with peers. This crate holds what the console decides: how a typed line is
//! read as a command, how an inbound datagram is told apart from a discovery
//! response, and how the session moves from one outstanding operation to the
//! next. Sockets, name resolution and the relay client stay with the caller,
//! which performs each [`session::Action`] and hands the outcome back as a
//! [`session::Event`].
use vstd::prelude::*;

pub mod address;
pub mod client;
pub mod command;
pub mod laws;
pub mod server;
pub mod session;
pub mod telnet;

pub use address::Address;

verus! {

/// The error of the `stun` crate. Nothing is claimed of what is in it.
#[verifier::external_type_specification]
#[verifier::external_body]
pub struct ExStunError(stun::Error);

/// The error of std's I/O. Nothing is claimed of what is in it.
#[verifier::external_type_specification]
#[verifier::external_body]
pub struct ExIoError(std::io::Error);

/// The error of the `webrtc_util` crate, which its transports return.
/// Nothing is claimed of what is in it.
#[verifier::external_type_specification]
#[verifier::external_body]
pub struct ExTransportError(webrtc_util::Error);

/// The error of the `turn` crate, which its relay client returns. Nothing is
/// claimed of what is in it.
#[verifier::external_type_specification]
#[verifier::external_body]
pub struct ExRelayError(turn::Error);

/// The arguments of the program: which of its three modes to run.
pub struct Args {
    pub subcommand: Subcommand,
}

/// The three modes, each with its own arguments.
pub enum Subcommand {
    /// Answer discovery requests.
    Server(server::Args),
    /// Ask discovery servers once and leave.
    Client(client::Args),
    /// Run the interactive session.
    Telnet(telnet::Args),
}

/// A failure that is reported to the operator.
///
/// Failures raised by a collaborator carry the collaborator's own error value,
/// untouched.
#[derive(Debug)]
pub enum Failure {
    /// The discovery codec rejected a buffer.
    Stun(stun::Error),
    /// A well-formed discovery message of another type than a Binding success
    /// response; the value is the type field found.
    UnexpectedType(u16),
    /// The console could not be read, or a name could not be looked up.
    Io(std::io::Error),
    /// The transport failed to send or to receive.
    Transport(webrtc_util::Error),
    /// Name resolution succeeded and gave no address.
    NotFound,
    /// A relay-switch line that is not `turn:server username password`.
    CommandSyntax,
    /// The relay client could not be set up or could not start listening.
    ConnectFailed(turn::Error),
    /// The relay server granted no allocation.
    AllocateFailed(turn::Error),
    /// An event arrived that the session was not waiting for.
    OutOfTurn,
}

} // verus!
