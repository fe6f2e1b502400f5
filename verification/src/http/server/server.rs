//! The server: where it listens, and how it answers a request.
use vstd::prelude::*;
use super::super::method::Method;
use super::super::status::Status;
use super::super::wire::Endpoint;
use super::super::{Error, Fault};
use super::request::{window, Rejection, Request};
use super::response::Response;

verus! {

/// The address a server listens on unless it is given another: the loopback address.
pub const DEFAULT_ADDRESS: u32 = 0x7F_00_00_01;

/// The port a server listens on unless it is given another.
pub const DEFAULT_PORT: u16 = 80;

/// A server: the address and the port it listens on.
#[derive(Debug)]
pub struct Server {
    address: u32,
    port: u16,
}

impl View for Server {
    type V = Endpoint;

    closed spec fn view(&self) -> Endpoint {
        Endpoint { address: self.address, port: self.port }
    }
}

impl Server {
    /// The status that answers a request with the method `method`: OK for
    /// GET, and Not Found for every other.
    pub open spec fn status_for(method: Method) -> Status {
        if method == Method::GET {
            Status::OK
        } else {
            Status::NotFound
        }
    }

    /// A server on the default address and port.
    pub fn new() -> (r: Self)
        ensures
            r@ == (Endpoint { address: DEFAULT_ADDRESS, port: DEFAULT_PORT }),
    {
        Self { address: DEFAULT_ADDRESS, port: DEFAULT_PORT }
    }

    /// The response to `request`. Only the request's method decides it.
    pub fn respond(&self, request: &Request) -> (r: Response)
        ensures
            r@ == Self::status_for(request@.method),
    {
        let mut response = Response::new();
        match request.get_method() {
            Method::GET => {
                response.set_status(Status::OK);
            },
            _ => {
                response.set_status(Status::NotFound);
            },
        }
        response
    }

    /// Handles what one connection sent: reads the request from it and
    /// decides the response. Where the bytes are no request there is no
    /// response.
    pub fn handle(&self, received: &[u8]) -> (r: Result<(Request, Response), Error>)
        ensures
            (match Request::spec_parse(window(received@)) {
                Ok(line) => r matches Ok((request, response)) && request@ == line && response@
                    == Self::status_for(line.method),
                Err(Rejection::Malformed) => r matches Err(Error::BadRequest),
                Err(Rejection::Undecodable) => r matches Err(
                    Error::InternalError(Fault::Encoding(_)),
                ),
            }),
    {
        let request = match Request::parse(received) {
            Ok(request) => request,
            Err(error) => return Err(error),
        };
        let response = self.respond(&request);
        Ok((request, response))
    }

    /// Makes the server listen on `port`.
    pub fn set_port(&mut self, port: u16)
        ensures
            final(self)@ == (Endpoint { port: port, ..old(self)@ }),
    {
        self.port = port;
    }

    /// The port the server listens on.
    pub fn get_port(&mut self) -> (r: u16)
        ensures
            r == old(self)@.port,
            final(self)@ == old(self)@,
    {
        self.port
    }

    /// Makes the server listen on `address`.
    pub fn set_address(&mut self, address: u32)
        ensures
            final(self)@ == (Endpoint { address: address, ..old(self)@ }),
    {
        self.address = address;
    }

    /// The address the server listens on.
    pub fn get_address(&mut self) -> (r: u32)
        ensures
            r == old(self)@.address,
            final(self)@ == old(self)@,
    {
        self.address
    }
}

} // verus!
