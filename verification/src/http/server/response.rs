//! The response as the server writes it.
use vstd::prelude::*;
use vstd::utf8::*;
use super::super::status::Status;
use super::super::wire::{status_line, write_status};

verus! {

/// A response: a status.
#[derive(Debug)]
pub struct Response {
    status: Status,
}

impl View for Response {
    type V = Status;

    closed spec fn view(&self) -> Status {
        self.status
    }
}

impl Response {
    /// A response with the status OK.
    pub fn new() -> (r: Self)
        ensures
            r@ == Status::OK,
    {
        Self { status: Status::OK }
    }

    /// The response's status.
    pub fn get_status(&self) -> (r: &Status)
        ensures
            *r == self@,
    {
        &self.status
    }

    /// Gives the response another status.
    pub fn set_status(&mut self, status: Status)
        ensures
            final(self)@ == status,
    {
        self.status = status;
    }

    /// The response as it is written on the wire.
    pub fn to_string(&self) -> (r: String)
        ensures
            encode_utf8(r@) == status_line(self@),
    {
        write_status(&self.status)
    }
}

} // verus!
