//! The wire format: what a request line and a status line are made of.
use vstd::prelude::*;
use vstd::slice::slice_subrange;
use vstd::string::*;
use vstd::utf8::*;
use super::method::Method;
use super::status::Status;
use super::text::{from_utf8, lemma_ascii_bytes, lemma_encode_concat, SLASH, SPACE};

verus! {

/// Whether `raw` can stand as a request target: it is not empty and
/// begins with a slash.
pub open spec fn is_path(raw: Seq<u8>) -> bool {
    raw.len() > 0 && raw[0] == SLASH
}

/// The target as it is kept: a slash that ends it is dropped, once,
/// unless the target is the slash alone.
pub open spec fn normalize(raw: Seq<u8>) -> Seq<u8> {
    if raw.len() > 1 && raw.last() == SLASH {
        raw.drop_last()
    } else {
        raw
    }
}

/// The protocol token and the end of the request line.
pub open spec fn version_line() -> Seq<u8> {
    "HTTP/1.1\r\n".spec_bytes()
}

/// The end of a line.
pub open spec fn line_end() -> Seq<u8> {
    "\r\n".spec_bytes()
}

/// The protocol token and the space that open a status line.
pub open spec fn version_lead() -> Seq<u8> {
    "HTTP/1.1 ".spec_bytes()
}

/// Where a client connects to and a server listens: an IPv4 address and a port.
pub struct Endpoint {
    pub address: u32,
    pub port: u16,
}

/// A request line on the wire: the method's text, the target as it was
/// sent and the protocol token, one space between them, then the end of
/// the line and an empty line.
pub open spec fn request_bytes(method: Method, raw: Seq<u8>) -> Seq<u8> {
    method.text() + seq![SPACE] + raw + seq![SPACE] + version_line() + line_end()
}

/// What a request says: a method and a target.
pub struct RequestLine {
    pub method: Method,
    pub target: Seq<char>,
}

impl RequestLine {
    /// The target as bytes.
    pub open spec fn target_bytes(self) -> Seq<u8> {
        encode_utf8(self.target)
    }

    /// The target is not empty and begins with a slash.
    pub open spec fn wf(self) -> bool {
        is_path(self.target_bytes())
    }

    /// The request on the wire.
    pub open spec fn wire(self) -> Seq<u8> {
        request_bytes(self.method, self.target_bytes())
    }
}

/// The response on the wire: the protocol token, a space, the status's
/// phrase, then the end of the line and an empty line.
pub open spec fn status_line(status: Status) -> Seq<u8> {
    version_lead() + status.phrase() + line_end() + line_end()
}

/// The fixed parts of the lines: how long they are, and what a space
/// and a slash are as bytes.
pub proof fn lemma_fixed_parts()
    ensures
        version_line().len() == 10,
        line_end().len() == 2,
        version_lead().len() == 9,
        encode_utf8(" "@) == seq![SPACE],
        encode_utf8("/"@) == seq![SLASH],
{
    reveal_strlit("HTTP/1.1\r\n");
    reveal_strlit("\r\n");
    reveal_strlit("HTTP/1.1 ");
    reveal_strlit(" ");
    reveal_strlit("/");
    lemma_ascii_bytes("HTTP/1.1\r\n"@);
    lemma_ascii_bytes("\r\n"@);
    lemma_ascii_bytes("HTTP/1.1 "@);
    lemma_ascii_bytes(" "@);
    lemma_ascii_bytes("/"@);
    assert(encode_utf8(" "@) =~= seq![SPACE]);
    assert(encode_utf8("/"@) =~= seq![SLASH]);
}

/// Text whose bytes are a path begins with a slash.
pub proof fn lemma_path_text(text: Seq<char>)
    requires
        is_path(encode_utf8(text)),
    ensures
        text.len() > 0,
        text[0] == '/',
{
    let bytes = encode_utf8(text);
    encode_utf8_first_scalar(text);
    let first: u8 = bytes[0];
    assert(first & 0x7f == 0x2f) by (bit_vector)
        requires
            first == 0x2f,
    ;
    char_u32_cast(text[0], decode_first_scalar(bytes));
}

/// Drops from `raw` the slash that ends it, unless `raw` is one byte.
pub fn normalized(raw: &[u8]) -> (r: &[u8])
    ensures
        r@ == normalize(raw@),
{
    if raw.len() > 1 && raw[raw.len() - 1] == SLASH {
        let r = slice_subrange(raw, 0, raw.len() - 1);
        assert(r@ =~= raw@.drop_last());
        r
    } else {
        raw
    }
}

/// Reads a raw target as the text that is kept for it: `raw` normalized
/// and decoded, or the fault where that is not UTF-8.
pub fn read_target(raw: &[u8]) -> (r: Result<String, core::str::Utf8Error>)
    ensures
        r is Ok <==> valid_utf8(normalize(raw@)),
        r matches Ok(target) ==> target@ == decode_utf8(normalize(raw@)) && encode_utf8(target@)
            == normalize(raw@),
{
    match from_utf8(normalized(raw)) {
        Ok(text) => {
            proof {
                encode_utf8_decode_utf8(text@);
            }
            Ok(text.to_owned())
        },
        Err(error) => Err(error),
    }
}

/// Writes a request line for `method` and `target`.
pub fn write_request(method: &Method, target: &str) -> (r: String)
    ensures
        r@ == method.name() + " "@ + target@ + " "@ + "HTTP/1.1\r\n"@ + "\r\n"@,
        encode_utf8(r@) == (RequestLine { method: *method, target: target@ }).wire(),
{
    let mut line = String::from_str(method.as_str());
    line.append(" ");
    line.append(target);
    line.append(" ");
    line.append("HTTP/1.1\r\n");
    line.append("\r\n");
    proof {
        let head = method.name() + " "@;
        lemma_fixed_parts();
        lemma_encode_concat(method.name(), " "@);
        lemma_encode_concat(head, target@);
        lemma_encode_concat(head + target@, " "@);
        lemma_encode_concat(head + target@ + " "@, "HTTP/1.1\r\n"@);
        lemma_encode_concat(head + target@ + " "@ + "HTTP/1.1\r\n"@, "\r\n"@);
    }
    line
}

/// Writes a status line for `status`.
pub fn write_status(status: &Status) -> (r: String)
    ensures
        encode_utf8(r@) == status_line(*status),
{
    let phrase = status.as_str();
    let mut line = String::from_str("HTTP/1.1 ");
    line.append(phrase);
    line.append("\r\n");
    line.append("\r\n");
    proof {
        lemma_encode_concat("HTTP/1.1 "@, phrase@);
        lemma_encode_concat("HTTP/1.1 "@ + phrase@, "\r\n"@);
        lemma_encode_concat("HTTP/1.1 "@ + phrase@ + "\r\n"@, "\r\n"@);
    }
    line
}

} // verus!
