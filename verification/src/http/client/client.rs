//! The client: where it connects to.
use vstd::prelude::*;
use super::super::wire::Endpoint;

verus! {

/// The address a client connects to unless it is given another: the loopback address.
pub const DEFAULT_ADDRESS: u32 = 0x7F_00_00_01;

/// The port a client connects to unless it is given another.
pub const DEFAULT_PORT: u16 = 80;

/// A client: the address and the port it connects to.
#[derive(Debug)]
pub struct Client {
    address: u32,
    port: u16,
}

impl View for Client {
    type V = Endpoint;

    closed spec fn view(&self) -> Endpoint {
        Endpoint { address: self.address, port: self.port }
    }
}

impl Client {
    /// A client for the default address and port.
    pub fn new() -> (r: Self)
        ensures
            r@ == (Endpoint { address: DEFAULT_ADDRESS, port: DEFAULT_PORT }),
    {
        Self { address: DEFAULT_ADDRESS, port: DEFAULT_PORT }
    }

    /// Makes the client connect to `port`.
    pub fn set_port(&mut self, port: u16)
        ensures
            final(self)@ == (Endpoint { port: port, ..old(self)@ }),
    {
        self.port = port;
    }

    /// The port the client connects to.
    pub fn get_port(&mut self) -> (r: u16)
        ensures
            r == old(self)@.port,
            final(self)@ == old(self)@,
    {
        self.port
    }

    /// Makes the client connect to `address`.
    pub fn set_address(&mut self, address: u32)
        ensures
            final(self)@ == (Endpoint { address: address, ..old(self)@ }),
    {
        self.address = address;
    }

    /// The address the client connects to.
    pub fn get_address(&mut self) -> (r: u32)
        ensures
            r == old(self)@.address,
            final(self)@ == old(self)@,
    {
        self.address
    }
}

} // verus!
