//! Network endpoints as plain values.
use vstd::prelude::*;

verus! {

/// A network endpoint: an IP address written as a literal, and a port.
///
/// The literal is the usual text form (`198.51.100.7`, `2001:db8::1`), without
/// brackets and without the port.
#[derive(Debug, PartialEq, Eq)]
pub struct Address {
    pub ip: String,
    pub port: u16,
}

/// What an [`Address`] stands for in contracts.
pub struct AddressView {
    pub ip: Seq<char>,
    pub port: u16,
}

impl View for Address {
    type V = AddressView;

    open spec fn view(&self) -> AddressView {
        AddressView { ip: self.ip@, port: self.port }
    }
}

impl Address {
    /// The endpoint with the given literal and port.
    pub fn new(ip: &str, port: u16) -> (a: Address)
        ensures
            a@ == (AddressView { ip: ip@, port }),
    {
        Address { ip: ip.to_owned(), port }
    }

    /// A second value for the same endpoint.
    pub fn duplicate(&self) -> (a: Address)
        ensures
            a@ == self@,
    {
        Address { ip: self.ip.clone(), port: self.port }
    }
}

} // verus!
