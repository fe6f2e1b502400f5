//! The response as the client reads it.
use vstd::prelude::*;
use vstd::slice::slice_subrange;
use vstd::string::*;
use vstd::utf8::*;
use super::super::status::Status;
use super::super::text::{has_at, head, starts_at, take_head};
use super::super::wire::{lemma_fixed_parts, status_line, version_lead, write_status};
use super::super::Error;

verus! {

/// The most bytes of a stream that are looked at for a response.
pub const MAX_HEADER_LENGTH: usize = 4096;

/// Length of the protocol token and the space behind it.
pub const LENGTH_LEAD: usize = 8 + 1;

/// Length of a code text.
pub const LENGTH_CODE: usize = 3;

/// The head of what was received: no more of it is looked at.
pub open spec fn window(received: Seq<u8>) -> Seq<u8> {
    head(received, MAX_HEADER_LENGTH as int)
}

/// A response: a status.
#[derive(Debug)]
pub struct Response {
    status: Status,
}

impl View for Response {
    type V = Status;

    closed spec fn view(&self) -> Status {
        self.status
    }
}

impl Response {
    /// The bytes that are read as the code text.
    pub open spec fn code_part(bytes: Seq<u8>) -> Seq<u8> {
        bytes.subrange(LENGTH_LEAD as int, LENGTH_LEAD + LENGTH_CODE)
    }

    /// The status that `bytes` begin a status line for, if any: the
    /// protocol token, a space, and the code text of a status. What
    /// follows the code text is not looked at.
    pub open spec fn spec_parse(bytes: Seq<u8>) -> Option<Status> {
        if has_at(bytes, 0, version_lead()) && bytes.len() >= LENGTH_LEAD + LENGTH_CODE {
            Status::spec_from_code_text(Self::code_part(bytes))
        } else {
            None
        }
    }

    /// Bytes are read as a response with a given status exactly when
    /// they begin with the protocol token, a space and that status's code
    /// text. A code text that no status has is read as none.
    pub proof fn lemma_reads_status_lines(bytes: Seq<u8>, status: Status)
        ensures
            Self::spec_parse(bytes) == Some(status) <==> has_at(bytes, 0, version_lead()) && has_at(
                bytes,
                LENGTH_LEAD as int,
                status.code_text(),
            ),
    {
        lemma_fixed_parts();
        if has_at(bytes, 0, version_lead()) && has_at(
            bytes,
            LENGTH_LEAD as int,
            status.code_text(),
        ) {
            Status::lemma_code_text_round_trip(status);
        }
        if Self::spec_parse(bytes) == Some(status) {
            let found = choose|other: Status| #[trigger]
                other.code_text() == Self::code_part(bytes);
            assert(found == status);
        }
    }

    /// Reading a written response gives its status back: a status line
    /// lies within the head that is looked at, and is read as its status.
    pub proof fn lemma_round_trip(status: Status)
        ensures
            window(status_line(status)) == status_line(status),
            Self::spec_parse(status_line(status)) == Some(status),
    {
        let bytes = status_line(status);
        lemma_fixed_parts();
        status.lemma_text_length();
        assert(bytes.subrange(0, LENGTH_LEAD as int) =~= version_lead());
        assert(bytes.subrange(LENGTH_LEAD as int, LENGTH_LEAD + LENGTH_CODE)
            =~= status.code_text());
        Self::lemma_reads_status_lines(bytes, status);
    }

    fn new() -> (r: Self)
        ensures
            r@ == Status::OK,
    {
        Self { status: Status::OK }
    }

    /// Reads a response from the head of what was received.
    pub fn parse(received: &[u8]) -> (r: Result<Response, Error>)
        ensures
            (match Response::spec_parse(window(received@)) {
                Some(status) => r matches Ok(response) && response@ == status,
                None => r matches Err(Error::BadResponse),
            }),
    {
        let mut response = Self::new();
        let buffer = take_head(received, MAX_HEADER_LENGTH);
        let buffer_length: usize = buffer.len();
        let mut buffer_finger: usize = 0;
        proof {
            lemma_fixed_parts();
        }

        if buffer_finger + LENGTH_LEAD > buffer_length {
            return Err(Error::BadResponse);
        }
        if !starts_at(buffer, buffer_finger, "HTTP/1.1 ".as_bytes()) {
            return Err(Error::BadResponse);
        }
        buffer_finger += LENGTH_LEAD;

        if buffer_finger + LENGTH_CODE > buffer_length {
            return Err(Error::BadResponse);
        }
        response.status = match Status::from_code_text(
            slice_subrange(buffer, buffer_finger, buffer_finger + LENGTH_CODE),
        ) {
            Some(status) => status,
            None => return Err(Error::BadResponse),
        };
        Ok(response)
    }

    /// The response's status.
    pub fn get_status(&self) -> (r: &Status)
        ensures
            *r == self@,
    {
        &self.status
    }

    /// The response as it is written on the wire.
    pub fn to_string(&self) -> (r: String)
        ensures
            encode_utf8(r@) == status_line(self@),
    {
        write_status(&self.status)
    }
}

} // verus!
