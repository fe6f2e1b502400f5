//! The request as the server reads it.
use vstd::prelude::*;
use vstd::slice::slice_subrange;
use vstd::string::*;
use vstd::utf8::*;
use super::super::method::Method;
use super::super::text::{
    first_index, head, lemma_first_index, lemma_first_index_found, position, starts_at, take_head,
    SLASH, SPACE,
};
use super::super::wire::{
    is_path, lemma_fixed_parts, lemma_path_text, line_end, normalize, read_target, request_bytes,
    version_line, write_request, RequestLine,
};
use super::super::{Error, Fault};
use super::super::{
    LENGTH_EOL, LENGTH_PROTOCOL, LENGTH_SPACE, MIN_LENGTH_METHOD, MIN_LENGTH_TARGET,
};

verus! {

/// The most bytes of a stream that are looked at for a request.
pub const MAX_LENGTH_HEADER: usize = 4096;

/// Length of the shortest request: `GET / HTTP/1.1`, the end of the line,
/// and the empty line.
pub const MIN_LENGTH_REQUEST_LINE_FULL: usize = MIN_LENGTH_METHOD + LENGTH_SPACE
    + MIN_LENGTH_TARGET + LENGTH_SPACE + LENGTH_PROTOCOL + LENGTH_EOL + LENGTH_EOL;

/// Length of the least that follows the method and its space.
pub const MIN_LENGTH_REQUEST_LINE_SLICED_1: usize = MIN_LENGTH_TARGET + LENGTH_SPACE
    + LENGTH_PROTOCOL + LENGTH_EOL + LENGTH_EOL;

/// Length of what follows the target and its space.
pub const MIN_LENGTH_REQUEST_LINE_SLICED_2: usize = LENGTH_PROTOCOL + LENGTH_EOL + LENGTH_EOL;

/// Length of what follows the protocol token's line.
pub const MIN_LENGTH_REQUEST_LINE_SLICED_3: usize = LENGTH_EOL;

/// The head of what was received: no more of it is looked at.
pub open spec fn window(received: Seq<u8>) -> Seq<u8> {
    head(received, MAX_LENGTH_HEADER as int)
}

/// Why bytes are not taken as a request.
pub enum Rejection {
    /// They are no request line.
    Malformed,
    /// They are a request line up to its target, and the target is not UTF-8.
    Undecodable,
}

/// A request: a method and a target. The target always begins with a slash.
#[derive(Debug)]
pub struct Request {
    method: Method,
    target: String,
}

impl View for Request {
    type V = RequestLine;

    closed spec fn view(&self) -> RequestLine {
        RequestLine { method: self.method, target: self.target@ }
    }
}

impl Request {
    #[verifier::type_invariant]
    spec fn well_formed(self) -> bool {
        is_path(encode_utf8(self.target@))
    }

    /// Where the method's text ends: at the first space.
    pub open spec fn method_end(bytes: Seq<u8>) -> int {
        first_index(bytes, 0, SPACE)
    }

    /// Where the target begins: behind the first space.
    pub open spec fn target_start(bytes: Seq<u8>) -> int {
        Self::method_end(bytes) + LENGTH_SPACE
    }

    /// Where the target ends: at the second space.
    pub open spec fn target_end(bytes: Seq<u8>) -> int {
        first_index(bytes, Self::target_start(bytes), SPACE)
    }

    /// The bytes before the first space.
    pub open spec fn method_part(bytes: Seq<u8>) -> Seq<u8> {
        bytes.subrange(0, Self::method_end(bytes))
    }

    /// The bytes between the first space and the second.
    pub open spec fn target_part(bytes: Seq<u8>) -> Seq<u8> {
        bytes.subrange(Self::target_start(bytes), Self::target_end(bytes))
    }

    /// The bytes behind the second space.
    pub open spec fn protocol_part(bytes: Seq<u8>) -> Seq<u8> {
        bytes.subrange(Self::target_end(bytes) + LENGTH_SPACE, bytes.len() as int)
    }

    /// Whether `bytes` are a request line as far as its target: long
    /// enough, a method's text before the first space, enough behind it,
    /// and a target that begins with a slash and ends at a second space.
    pub open spec fn has_head(bytes: Seq<u8>) -> bool {
        &&& bytes.len() >= MIN_LENGTH_REQUEST_LINE_FULL
        &&& Self::method_end(bytes) < bytes.len()
        &&& Method::spec_from_text(Self::method_part(bytes)) is Some
        &&& Self::target_start(bytes) + MIN_LENGTH_REQUEST_LINE_SLICED_1 <= bytes.len()
        &&& Self::target_end(bytes) < bytes.len()
        &&& bytes[Self::target_start(bytes)] == SLASH
    }

    /// What `bytes` say as a request, or why they are none.
    pub open spec fn spec_parse(bytes: Seq<u8>) -> Result<RequestLine, Rejection> {
        if !Self::has_head(bytes) {
            Err(Rejection::Malformed)
        } else if !valid_utf8(normalize(Self::target_part(bytes))) {
            Err(Rejection::Undecodable)
        } else if Self::protocol_part(bytes) != version_line() + line_end() {
            Err(Rejection::Malformed)
        } else {
            Ok(
                RequestLine {
                    method: Method::spec_from_text(Self::method_part(bytes)).unwrap(),
                    target: decode_utf8(normalize(Self::target_part(bytes))),
                },
            )
        }
    }

    /// A request line is read as what it says. Whatever the method, and
    /// whatever target was sent that begins with a slash and holds no
    /// space: the line is taken with that method and the target
    /// normalized, or, where the target is not UTF-8, refused as
    /// undecodable.
    pub proof fn lemma_reads_request_line(method: Method, raw: Seq<u8>)
        requires
            is_path(raw),
            !raw.contains(SPACE),
        ensures
            Self::spec_parse(request_bytes(method, raw)) == if valid_utf8(normalize(raw)) {
                Ok::<RequestLine, Rejection>(
                    RequestLine { method: method, target: decode_utf8(normalize(raw)) },
                )
            } else {
                Err::<RequestLine, Rejection>(Rejection::Undecodable)
            },
    {
        let name = method.text();
        let bytes = request_bytes(method, raw);
        let start: int = name.len() as int + 1;
        let end: int = start + raw.len() as int;
        lemma_fixed_parts();
        method.lemma_text_shape();
        Method::lemma_text_round_trip(method);
        assert(bytes.len() == end + 13);
        assert forall|k: int| 0 <= k < name.len() implies bytes[k] != SPACE by {
            assert(bytes[k] == name[k]);
        }
        assert(bytes[name.len() as int] == SPACE);
        lemma_first_index(bytes, 0, SPACE, name.len() as int);
        assert forall|k: int| start <= k < end implies bytes[k] != SPACE by {
            assert(bytes[k] == raw[k - start]);
        }
        assert(bytes[end] == SPACE);
        lemma_first_index(bytes, start, SPACE, end);
        assert(Self::method_part(bytes) =~= name);
        assert(Self::target_part(bytes) =~= raw);
        assert(Self::protocol_part(bytes) =~= version_line() + line_end());
        assert(bytes[start] == raw[0]);
    }

    /// Reading what was written gives it back: a request whose target
    /// holds no space and does not end with a slash, unless it is the
    /// slash alone, is read from its wire form as it is.
    pub proof fn lemma_round_trip(line: RequestLine)
        requires
            line.wf(),
            !line.target_bytes().contains(SPACE),
            normalize(line.target_bytes()) == line.target_bytes(),
        ensures
            Self::spec_parse(line.wire()) == Ok::<RequestLine, Rejection>(line),
    {
        Self::lemma_reads_request_line(line.method, line.target_bytes());
        encode_utf8_valid_utf8(line.target);
        encode_utf8_decode_utf8(line.target);
    }

    /// What is taken as a request is a request line: the text of the
    /// method, a space, a target that begins with a slash and holds no
    /// space, a space, the protocol token, the end of the line and an
    /// empty line, and nothing else. The target that is kept is the one
    /// that was sent, normalized.
    pub proof fn lemma_accepts_request_lines_only(bytes: Seq<u8>)
        requires
            Self::spec_parse(bytes) is Ok,
        ensures
            ({
                let line = Self::spec_parse(bytes)->Ok_0;
                let raw = Self::target_part(bytes);
                &&& bytes == request_bytes(line.method, raw)
                &&& is_path(raw)
                &&& !raw.contains(SPACE)
                &&& line.target_bytes() == normalize(raw)
                &&& line.wf()
            }),
    {
        let line = Self::spec_parse(bytes)->Ok_0;
        let raw = Self::target_part(bytes);
        lemma_first_index_found(bytes, 0, SPACE);
        lemma_first_index_found(bytes, Self::target_start(bytes), SPACE);
        decode_utf8_encode_utf8(normalize(raw));
        assert(line.method.text() == Self::method_part(bytes));
        assert(bytes[Self::method_end(bytes)] == SPACE);
        assert(bytes[Self::target_end(bytes)] == SPACE);
        assert(bytes =~= Self::method_part(bytes) + seq![SPACE] + raw + seq![SPACE]
            + Self::protocol_part(bytes));
        assert(bytes =~= request_bytes(line.method, raw));
        assert(raw[0] == bytes[Self::target_start(bytes)]);
    }

    /// What is refused as malformed: bytes that are fewer than the
    /// shortest request, or whose first part is no method's text, or
    /// whose target does not begin with a slash; and bytes whose target
    /// is UTF-8 and that do not end with the protocol token, the end of
    /// the line and an empty line.
    pub proof fn lemma_rejects(bytes: Seq<u8>)
        requires
            ({
                ||| bytes.len() < MIN_LENGTH_REQUEST_LINE_FULL
                ||| Method::spec_from_text(Self::method_part(bytes)) is None
                ||| !is_path(Self::target_part(bytes))
                ||| Self::protocol_part(bytes) != version_line() + line_end() && valid_utf8(
                    normalize(Self::target_part(bytes)),
                )
            }),
        ensures
            Self::spec_parse(bytes) == Err::<RequestLine, Rejection>(Rejection::Malformed),
    {
        if Self::has_head(bytes) {
            lemma_first_index_found(bytes, Self::target_start(bytes), SPACE);
            assert(Self::target_part(bytes)[0] == bytes[Self::target_start(bytes)]);
        }
    }

    /// Reads a request from the head of what was received. Nothing may
    /// follow the empty line that ends it.
    pub fn parse(received: &[u8]) -> (r: Result<Request, Error>)
        ensures
            (match Request::spec_parse(window(received@)) {
                Ok(line) => r matches Ok(request) && request@ == line,
                Err(Rejection::Malformed) => r matches Err(Error::BadRequest),
                Err(Rejection::Undecodable) => r matches Err(
                    Error::InternalError(Fault::Encoding(_)),
                ),
            }),
    {
        let buffer = take_head(received, MAX_LENGTH_HEADER);
        let buffer_length: usize = buffer.len();
        let mut buffer_finger: usize = 0;

        if MIN_LENGTH_REQUEST_LINE_FULL > buffer_length {
            return Err(Error::BadRequest);
        }
        let space_index = match position(buffer, buffer_finger, SPACE) {
            Some(index) => index,
            None => return Err(Error::BadRequest),
        };
        let method = match Method::from_text(slice_subrange(buffer, 0, space_index)) {
            Some(method) => method,
            None => return Err(Error::BadRequest),
        };
        buffer_finger = space_index + LENGTH_SPACE;

        if buffer_finger + MIN_LENGTH_REQUEST_LINE_SLICED_1 > buffer_length {
            return Err(Error::BadRequest);
        }
        let space_index = match position(buffer, buffer_finger, SPACE) {
            Some(index) => index,
            None => return Err(Error::BadRequest),
        };
        if buffer[buffer_finger] != SLASH {
            return Err(Error::BadRequest);
        }
        let target = match read_target(slice_subrange(buffer, buffer_finger, space_index)) {
            Ok(target) => target,
            Err(error) => return Err(Error::InternalError(Fault::Encoding(error))),
        };
        buffer_finger = space_index + LENGTH_SPACE;

        proof {
            lemma_fixed_parts();
        }
        let ghost protocol_start = buffer_finger as int;
        assert(Self::protocol_part(buffer@).len() == buffer_length - protocol_start);
        if buffer_finger + MIN_LENGTH_REQUEST_LINE_SLICED_2 > buffer_length {
            return Err(Error::BadRequest);
        }
        if !starts_at(buffer, buffer_finger, "HTTP/1.1\r\n".as_bytes()) {
            assert(Self::protocol_part(buffer@).subrange(0, 10) =~= buffer@.subrange(
                protocol_start,
                protocol_start + 10,
            ));
            assert((version_line() + line_end()).subrange(0, 10) =~= version_line());
            return Err(Error::BadRequest);
        }
        buffer_finger += LENGTH_PROTOCOL + LENGTH_EOL;

        if buffer_finger + MIN_LENGTH_REQUEST_LINE_SLICED_3 > buffer_length {
            return Err(Error::BadRequest);
        }
        if !starts_at(buffer, buffer_finger, "\r\n".as_bytes()) {
            assert(Self::protocol_part(buffer@).subrange(10, 12) =~= buffer@.subrange(
                protocol_start + 10,
                protocol_start + 12,
            ));
            assert((version_line() + line_end()).subrange(10, 12) =~= line_end());
            return Err(Error::BadRequest);
        }
        buffer_finger += LENGTH_EOL;

        if buffer_finger != buffer_length {
            return Err(Error::BadRequest);
        }
        assert(Self::protocol_part(buffer@) =~= buffer@.subrange(
            protocol_start,
            protocol_start + 10,
        ) + buffer@.subrange(protocol_start + 10, protocol_start + 12));
        Ok(Request { method, target })
    }

    /// The request's method.
    pub fn get_method(&self) -> (r: &Method)
        ensures
            *r == self@.method,
    {
        &self.method
    }

    /// The request's target.
    pub fn get_target(&self) -> (r: &str)
        ensures
            r@ == self@.target,
            self@.wf(),
            r@.len() > 0 && r@[0] == '/',
    {
        proof {
            use_type_invariant(self);
            lemma_path_text(self.target@);
        }
        self.target.as_str()
    }

    /// The request as it is written on the wire.
    pub fn to_string(&self) -> (r: String)
        ensures
            encode_utf8(r@) == self@.wire(),
    {
        write_request(&self.method, self.target.as_str())
    }
}

} // verus!
