//! The status codes.
use vstd::prelude::*;
use vstd::string::*;
use vstd::utf8::*;
use super::text::{bytes_equal, lemma_ascii_bytes, lemma_encode_concat, SPACE};

verus! {

/// The least code of a status.
pub const FIRST_CODE: usize = 100;

/// The greatest code of a status.
pub const LAST_CODE: usize = 511;

/// The byte that writes the digit zero.
pub const ZERO: u8 = 48;

/// Whether `byte` writes a decimal digit.
pub open spec fn is_digit_byte(byte: u8) -> bool {
    ZERO <= byte <= ZERO + 9
}

/// Whether `text` is three decimal digits.
pub open spec fn is_decimal3(text: Seq<u8>) -> bool {
    &&& text.len() == 3
    &&& is_digit_byte(text[0])
    &&& is_digit_byte(text[1])
    &&& is_digit_byte(text[2])
}

/// The number that three decimal digits write.
pub open spec fn decimal3_value(text: Seq<u8>) -> int {
    (text[0] - ZERO) * 100 + (text[1] - ZERO) * 10 + (text[2] - ZERO)
}

/// The byte that writes the decimal digit `digit`.
pub open spec fn digit_byte(digit: int) -> u8 {
    (ZERO + digit) as u8
}

/// The three decimal digits of `code`, as bytes.
pub open spec fn decimal3(code: int) -> Seq<u8> {
    seq![digit_byte(code / 100), digit_byte(code / 10 % 10), digit_byte(code % 10)]
}

/// A text is the three digits of a number below a thousand exactly when
/// it is three decimal digits that write that number.
pub proof fn lemma_decimal3_value(code: int, text: Seq<u8>)
    requires
        0 <= code < 1000,
    ensures
        decimal3(code) == text <==> is_decimal3(text) && decimal3_value(text) == code,
{
    if is_decimal3(text) && decimal3_value(text) == code {
        assert(decimal3(code) =~= text);
    }
    if decimal3(code) == text {
        assert(text[0] == digit_byte(code / 100));
        assert(text[1] == digit_byte(code / 10 % 10));
        assert(text[2] == digit_byte(code % 10));
    }
}

/// Below a thousand, three digits tell one number from another.
pub proof fn lemma_decimal3_injective(a: int, b: int)
    requires
        0 <= a < 1000,
        0 <= b < 1000,
        decimal3(a) == decimal3(b),
    ensures
        a == b,
{
    lemma_decimal3_value(a, decimal3(b));
    lemma_decimal3_value(b, decimal3(b));
}

/// One line of the registry: the forms in which a status is written.
struct Entry {
    /// The status's number.
    code: usize,
    /// The number in three decimal digits.
    code_text: &'static str,
    /// The reason phrase.
    text: &'static str,
    /// The code text, a space, the reason phrase.
    phrase: &'static str,
}

/// A line of the registry whose texts are written out agrees with what
/// the number and the reason phrase determine.
proof fn lemma_entry(code: int, code_text: Seq<char>, reason: Seq<char>, phrase: Seq<char>)
    requires
        0 <= code < 1000,
        code_text.len() == 3,
        code_text[0] as int == ZERO + code / 100,
        code_text[1] as int == ZERO + code / 10 % 10,
        code_text[2] as int == ZERO + code % 10,
        is_ascii_chars(reason),
        phrase =~= code_text + seq![' '] + reason,
    ensures
        encode_utf8(code_text) == decimal3(code),
        encode_utf8(phrase) == decimal3(code) + seq![SPACE] + encode_utf8(reason),
{
    let space = seq![' '];
    lemma_ascii_bytes(code_text);
    lemma_ascii_bytes(space);
    assert(encode_utf8(code_text) =~= decimal3(code));
    assert(encode_utf8(space) =~= seq![SPACE]);
    lemma_encode_concat(code_text, space);
    lemma_encode_concat(code_text + space, reason);
}

/// A status code registered with IANA. The set is closed: a number or a
/// text outside it names no status.
#[derive(Debug, Clone, Copy, PartialEq, Eq, Structural)]
pub enum Status {
    // 1xx: Informational: Request received, continuing process
    /// 100 Continue (RFC 7231, section 6.2.1).
    Continue,
    /// 101 Switching Protocols (RFC 7231, section 6.2.2).
    SwitchingProtocols,
    /// 102 Processing (RFC 2518).
    Processing,
    /// 103 Early Hints (RFC 8297).
    EarlyHints,
    // 2xx: Success: The action was successfully received, understood, and accepted
    /// 200 OK (RFC 7231, section 6.3.1).
    OK,
    /// 201 Created (RFC 7231, section 6.3.2).
    Created,
    /// 202 Accepted (RFC 7231, section 6.3.3).
    Accepted,
    /// 203 Non-Authoritative Information (RFC 7231, section 6.3.4).
    NonAuthoritativeInformation,
    /// 204 No Content (RFC 7231, section 6.3.5).
    NoContent,
    /// 205 Reset Content (RFC 7231, section 6.3.6).
    ResetContent,
    /// 206 Partial Content (RFC 7233, section 4.1).
    PartialContent,
    /// 207 Multi-Status (RFC 4918).
    MultiStatus,
    /// 208 Already Reported (RFC 5842).
    AlreadyReported,
    /// 226 IM Used (RFC 3229).
    IMUsed,
    // 3xx: Redirection: Further action must be taken in order to complete the request
    /// 300 Multiple Choices (RFC 7231, section 6.4.1).
    MultipleChoices,
    /// 301 Moved Permanently (RFC 7231, section 6.4.2).
    MovedPermanently,
    /// 302 Found (RFC 7231, section 6.4.3).
    Found,
    /// 303 See Other (RFC 7231, section 6.4.4).
    SeeOther,
    /// 304 Not Modified (RFC 7232, section 4.1).
    NotModified,
    /// 305 Use Proxy (RFC 7231, section 6.4.5).
    UseProxy,
    /// 307 Temporary Redirect (RFC 7231, section 6.4.7).
    TemporaryRedirect,
    /// 308 Permanent Redirect (RFC 7538).
    PermanentRedirect,
    // 4xx: Client Error: The request contains bad syntax or cannot be fulfilled
    /// 400 Bad Request (RFC 7231, section 6.5.1).
    BadRequest,
    /// 401 Unauthorized (RFC 7235, section 3.1).
    Unauthorized,
    /// 402 Payment Required (RFC 7231, section 6.5.2).
    PaymentRequired,
    /// 403 Forbidden (RFC 7231, section 6.5.3).
    Forbidden,
    /// 404 Not Found (RFC 7231, section 6.5.4).
    NotFound,
    /// 405 Method Not Allowed (RFC 7231, section 6.5.5).
    MethodNotAllowed,
    /// 406 Not Acceptable (RFC 7231, section 6.5.6).
    NotAcceptable,
    /// 407 Proxy Authentication Required (RFC 7235, section 3.2).
    ProxyAuthenticationRequired,
    /// 408 Request Timeout (RFC 7231, section 6.5.7).
    RequestTimeout,
    /// 409 Conflict (RFC 7231, section 6.5.8).
    Conflict,
    /// 410 Gone (RFC 7231, section 6.5.9).
    Gone,
    /// 411 Length Required (RFC 7231, section 6.5.10).
    LengthRequired,
    /// 412 Precondition Failed (RFC 7232, section 4.2; RFC 8144, section 3.2).
    PreconditionFailed,
    /// 413 Payload Too Large (RFC 7231, section 6.5.11).
    PayloadTooLarge,
    /// 414 URI Too Long (RFC 7231, section 6.5.12).
    URITooLong,
    /// 415 Unsupported Media Type (RFC 7231, section 6.5.13; RFC 7694, section 3).
    UnsupportedMediaType,
    /// 416 Range Not Satisfiable (RFC 7233, section 4.4).
    RangeNotSatisfiable,
    /// 417 Expectation Failed (RFC 7231, section 6.5.14).
    ExpectationFailed,
    /// 421 Misdirected Request (RFC 7540, section 9.1.2).
    MisdirectedRequest,
    /// 422 Unprocessable Entity (RFC 4918).
    UnprocessableEntity,
    /// 423 Locked (RFC 4918).
    Locked,
    /// 424 Failed Dependency (RFC 4918).
    FailedDependency,
    /// 425 Too Early (RFC 8470).
    TooEarly,
    /// 426 Upgrade Required (RFC 7231, section 6.5.15).
    UpgradeRequired,
    /// 428 Precondition Required (RFC 6585).
    PreconditionRequired,
    /// 429 Too Many Requests (RFC 6585).
    TooManyRequests,
    /// 431 Request Header Fields Too Large (RFC 6585).
    RequestHeaderFieldsTooLarge,
    /// 451 Unavailable For Legal Reasons (RFC 7725).
    UnavailableForLegalReasons,
    // 5xx: Server Error: The server failed to fulfill an apparently valid request
    /// 500 Internal Server Error (RFC 7231, section 6.6.1).
    InternalServerError,
    /// 501 Not Implemented (RFC 7231, section 6.6.2).
    NotImplemented,
    /// 502 Bad Gateway (RFC 7231, section 6.6.3).
    BadGateway,
    /// 503 Service Unavailable (RFC 7231, section 6.6.4).
    ServiceUnavailable,
    /// 504 Gateway Timeout (RFC 7231, section 6.6.5).
    GatewayTimeout,
    /// 505 HTTP Version Not Supported (RFC 7231, section 6.6.6).
    HTTPVersionNotSupported,
    /// 506 Variant Also Negotiates (RFC 2295).
    VariantAlsoNegotiates,
    /// 507 Insufficient Storage (RFC 4918).
    InsufficientStorage,
    /// 508 Loop Detected (RFC 5842).
    LoopDetected,
    /// 510 Not Extended (RFC 2774).
    NotExtended,
    /// 511 Network Authentication Required (RFC 6585).
    NetworkAuthenticationRequired,
}

impl Status {
    /// The status's number.
    pub open spec fn code(self) -> int {
        match self {
            Status::Continue => 100,
            Status::SwitchingProtocols => 101,
            Status::Processing => 102,
            Status::EarlyHints => 103,
            Status::OK => 200,
            Status::Created => 201,
            Status::Accepted => 202,
            Status::NonAuthoritativeInformation => 203,
            Status::NoContent => 204,
            Status::ResetContent => 205,
            Status::PartialContent => 206,
            Status::MultiStatus => 207,
            Status::AlreadyReported => 208,
            Status::IMUsed => 226,
            Status::MultipleChoices => 300,
            Status::MovedPermanently => 301,
            Status::Found => 302,
            Status::SeeOther => 303,
            Status::NotModified => 304,
            Status::UseProxy => 305,
            Status::TemporaryRedirect => 307,
            Status::PermanentRedirect => 308,
            Status::BadRequest => 400,
            Status::Unauthorized => 401,
            Status::PaymentRequired => 402,
            Status::Forbidden => 403,
            Status::NotFound => 404,
            Status::MethodNotAllowed => 405,
            Status::NotAcceptable => 406,
            Status::ProxyAuthenticationRequired => 407,
            Status::RequestTimeout => 408,
            Status::Conflict => 409,
            Status::Gone => 410,
            Status::LengthRequired => 411,
            Status::PreconditionFailed => 412,
            Status::PayloadTooLarge => 413,
            Status::URITooLong => 414,
            Status::UnsupportedMediaType => 415,
            Status::RangeNotSatisfiable => 416,
            Status::ExpectationFailed => 417,
            Status::MisdirectedRequest => 421,
            Status::UnprocessableEntity => 422,
            Status::Locked => 423,
            Status::FailedDependency => 424,
            Status::TooEarly => 425,
            Status::UpgradeRequired => 426,
            Status::PreconditionRequired => 428,
            Status::TooManyRequests => 429,
            Status::RequestHeaderFieldsTooLarge => 431,
            Status::UnavailableForLegalReasons => 451,
            Status::InternalServerError => 500,
            Status::NotImplemented => 501,
            Status::BadGateway => 502,
            Status::ServiceUnavailable => 503,
            Status::GatewayTimeout => 504,
            Status::HTTPVersionNotSupported => 505,
            Status::VariantAlsoNegotiates => 506,
            Status::InsufficientStorage => 507,
            Status::LoopDetected => 508,
            Status::NotExtended => 510,
            Status::NetworkAuthenticationRequired => 511,
        }
    }

    /// The status's reason phrase.
    pub open spec fn reason(self) -> Seq<char> {
        match self {
            Status::Continue => "Continue"@,
            Status::SwitchingProtocols => "Switching Protocols"@,
            Status::Processing => "Processing"@,
            Status::EarlyHints => "Early Hints"@,
            Status::OK => "OK"@,
            Status::Created => "Created"@,
            Status::Accepted => "Accepted"@,
            Status::NonAuthoritativeInformation => "Non-Authoritative Information"@,
            Status::NoContent => "No Content"@,
            Status::ResetContent => "Reset Content"@,
            Status::PartialContent => "Partial Content"@,
            Status::MultiStatus => "Multi-Status"@,
            Status::AlreadyReported => "Already Reported"@,
            Status::IMUsed => "IM Used"@,
            Status::MultipleChoices => "Multiple Choices"@,
            Status::MovedPermanently => "Moved Permanently"@,
            Status::Found => "Found"@,
            Status::SeeOther => "See Other"@,
            Status::NotModified => "Not Modified"@,
            Status::UseProxy => "Use Proxy"@,
            Status::TemporaryRedirect => "Temporary Redirect"@,
            Status::PermanentRedirect => "Permanent Redirect"@,
            Status::BadRequest => "Bad Request"@,
            Status::Unauthorized => "Unauthorized"@,
            Status::PaymentRequired => "Payment Required"@,
            Status::Forbidden => "Forbidden"@,
            Status::NotFound => "Not Found"@,
            Status::MethodNotAllowed => "Method Not Allowed"@,
            Status::NotAcceptable => "Not Acceptable"@,
            Status::ProxyAuthenticationRequired => "Proxy Authentication Required"@,
            Status::RequestTimeout => "Request Timeout"@,
            Status::Conflict => "Conflict"@,
            Status::Gone => "Gone"@,
            Status::LengthRequired => "Length Required"@,
            Status::PreconditionFailed => "Precondition Failed"@,
            Status::PayloadTooLarge => "Payload Too Large"@,
            Status::URITooLong => "URI Too Long"@,
            Status::UnsupportedMediaType => "Unsupported Media Type"@,
            Status::RangeNotSatisfiable => "Range Not Satisfiable"@,
            Status::ExpectationFailed => "Expectation Failed"@,
            Status::MisdirectedRequest => "Misdirected Request"@,
            Status::UnprocessableEntity => "Unprocessable Entity"@,
            Status::Locked => "Locked"@,
            Status::FailedDependency => "Failed Dependency"@,
            Status::TooEarly => "Too Early"@,
            Status::UpgradeRequired => "Upgrade Required"@,
            Status::PreconditionRequired => "Precondition Required"@,
            Status::TooManyRequests => "Too Many Requests"@,
            Status::RequestHeaderFieldsTooLarge => "Request Header Fields Too Large"@,
            Status::UnavailableForLegalReasons => "Unavailable For Legal Reasons"@,
            Status::InternalServerError => "Internal Server Error"@,
            Status::NotImplemented => "Not Implemented"@,
            Status::BadGateway => "Bad Gateway"@,
            Status::ServiceUnavailable => "Service Unavailable"@,
            Status::GatewayTimeout => "Gateway Timeout"@,
            Status::HTTPVersionNotSupported => "HTTP Version Not Supported"@,
            Status::VariantAlsoNegotiates => "Variant Also Negotiates"@,
            Status::InsufficientStorage => "Insufficient Storage"@,
            Status::LoopDetected => "Loop Detected"@,
            Status::NotExtended => "Not Extended"@,
            Status::NetworkAuthenticationRequired => "Network Authentication Required"@,
        }
    }

    /// The number as it is written on the wire: three decimal digits.
    pub open spec fn code_text(self) -> Seq<u8> {
        decimal3(self.code())
    }

    /// The reason phrase as it is written on the wire.
    pub open spec fn text(self) -> Seq<u8> {
        encode_utf8(self.reason())
    }

    /// The status as a status line shows it: the code text, a space, the reason phrase.
    pub open spec fn phrase(self) -> Seq<u8> {
        self.code_text() + seq![SPACE] + self.text()
    }

    /// The status whose number is `code`, if any.
    pub open spec fn spec_from_code(code: int) -> Option<Status> {
        if exists|status: Status| #[trigger] status.code() == code {
            Some(choose|status: Status| #[trigger] status.code() == code)
        } else {
            None
        }
    }

    /// The status whose code text is `text`, if any.
    pub open spec fn spec_from_code_text(text: Seq<u8>) -> Option<Status> {
        if exists|status: Status| #[trigger] status.code_text() == text {
            Some(choose|status: Status| #[trigger] status.code_text() == text)
        } else {
            None
        }
    }

    /// The status whose reason phrase is `text`, if any.
    pub open spec fn spec_from_text(text: Seq<u8>) -> Option<Status> {
        if exists|status: Status| #[trigger] status.text() == text {
            Some(choose|status: Status| #[trigger] status.text() == text)
        } else {
            None
        }
    }

    /// The status that a status line shows as `text`, if any.
    pub open spec fn spec_from_phrase(text: Seq<u8>) -> Option<Status> {
        if exists|status: Status| #[trigger] status.phrase() == text {
            Some(choose|status: Status| #[trigger] status.phrase() == text)
        } else {
            None
        }
    }

    /// Every code lies between the least and the greatest.
    pub proof fn lemma_code_range(self)
        ensures
            FIRST_CODE <= self.code() <= LAST_CODE,
    {
    }

    /// No two statuses share a number.
    pub proof fn lemma_code_injective(a: Status, b: Status)
        requires
            a.code() == b.code(),
        ensures
            a == b,
    {
    }

    /// No two statuses share a code text.
    pub proof fn lemma_code_text_injective(a: Status, b: Status)
        requires
            a.code_text() == b.code_text(),
        ensures
            a == b,
    {
        a.lemma_code_range();
        b.lemma_code_range();
        lemma_decimal3_injective(a.code(), b.code());
        Self::lemma_code_injective(a, b);
    }

    /// No two statuses share a reason phrase.
    pub proof fn lemma_reason_injective(a: Status, b: Status)
        requires
            a.reason() == b.reason(),
        ensures
            a == b,
    {
        reveal_strlit("Continue");
        reveal_strlit("Switching Protocols");
        reveal_strlit("Processing");
        reveal_strlit("Early Hints");
        reveal_strlit("OK");
        reveal_strlit("Created");
        reveal_strlit("Accepted");
        reveal_strlit("Non-Authoritative Information");
        reveal_strlit("No Content");
        reveal_strlit("Reset Content");
        reveal_strlit("Partial Content");
        reveal_strlit("Multi-Status");
        reveal_strlit("Already Reported");
        reveal_strlit("IM Used");
        reveal_strlit("Multiple Choices");
        reveal_strlit("Moved Permanently");
        reveal_strlit("Found");
        reveal_strlit("See Other");
        reveal_strlit("Not Modified");
        reveal_strlit("Use Proxy");
        reveal_strlit("Temporary Redirect");
        reveal_strlit("Permanent Redirect");
        reveal_strlit("Bad Request");
        reveal_strlit("Unauthorized");
        reveal_strlit("Payment Required");
        reveal_strlit("Forbidden");
        reveal_strlit("Not Found");
        reveal_strlit("Method Not Allowed");
        reveal_strlit("Not Acceptable");
        reveal_strlit("Proxy Authentication Required");
        reveal_strlit("Request Timeout");
        reveal_strlit("Conflict");
        reveal_strlit("Gone");
        reveal_strlit("Length Required");
        reveal_strlit("Precondition Failed");
        reveal_strlit("Payload Too Large");
        reveal_strlit("URI Too Long");
        reveal_strlit("Unsupported Media Type");
        reveal_strlit("Range Not Satisfiable");
        reveal_strlit("Expectation Failed");
        reveal_strlit("Misdirected Request");
        reveal_strlit("Unprocessable Entity");
        reveal_strlit("Locked");
        reveal_strlit("Failed Dependency");
        reveal_strlit("Too Early");
        reveal_strlit("Upgrade Required");
        reveal_strlit("Precondition Required");
        reveal_strlit("Too Many Requests");
        reveal_strlit("Request Header Fields Too Large");
        reveal_strlit("Unavailable For Legal Reasons");
        reveal_strlit("Internal Server Error");
        reveal_strlit("Not Implemented");
        reveal_strlit("Bad Gateway");
        reveal_strlit("Service Unavailable");
        reveal_strlit("Gateway Timeout");
        reveal_strlit("HTTP Version Not Supported");
        reveal_strlit("Variant Also Negotiates");
        reveal_strlit("Insufficient Storage");
        reveal_strlit("Loop Detected");
        reveal_strlit("Not Extended");
        reveal_strlit("Network Authentication Required");
        let key = |status: Status|
            {
                let reason = status.reason();
                (reason.len(), reason[0], reason[1], reason[(reason.len() / 2) as int])
            };
        assert(key(a) == key(b));
        assert(key(Status::Continue) == (8nat, 'C', 'o', 'i'));
        assert(key(Status::SwitchingProtocols) == (19nat, 'S', 'w', ' '));
        assert(key(Status::Processing) == (10nat, 'P', 'r', 's'));
        assert(key(Status::EarlyHints) == (11nat, 'E', 'a', ' '));
        assert(key(Status::OK) == (2nat, 'O', 'K', 'K'));
        assert(key(Status::Created) == (7nat, 'C', 'r', 'a'));
        assert(key(Status::Accepted) == (8nat, 'A', 'c', 'p'));
        assert(key(Status::NonAuthoritativeInformation) == (29nat, 'N', 'o', 'i'));
        assert(key(Status::NoContent) == (10nat, 'N', 'o', 'n'));
        assert(key(Status::ResetContent) == (13nat, 'R', 'e', 'C'));
        assert(key(Status::PartialContent) == (15nat, 'P', 'a', ' '));
        assert(key(Status::MultiStatus) == (12nat, 'M', 'u', 'S'));
        assert(key(Status::AlreadyReported) == (16nat, 'A', 'l', 'R'));
        assert(key(Status::IMUsed) == (7nat, 'I', 'M', 'U'));
        assert(key(Status::MultipleChoices) == (16nat, 'M', 'u', ' '));
        assert(key(Status::MovedPermanently) == (17nat, 'M', 'o', 'r'));
        assert(key(Status::Found) == (5nat, 'F', 'o', 'u'));
        assert(key(Status::SeeOther) == (9nat, 'S', 'e', 'O'));
        assert(key(Status::NotModified) == (12nat, 'N', 'o', 'd'));
        assert(key(Status::UseProxy) == (9nat, 'U', 's', 'P'));
        assert(key(Status::TemporaryRedirect) == (18nat, 'T', 'e', ' '));
        assert(key(Status::PermanentRedirect) == (18nat, 'P', 'e', ' '));
        assert(key(Status::BadRequest) == (11nat, 'B', 'a', 'e'));
        assert(key(Status::Unauthorized) == (12nat, 'U', 'n', 'o'));
        assert(key(Status::PaymentRequired) == (16nat, 'P', 'a', 'R'));
        assert(key(Status::Forbidden) == (9nat, 'F', 'o', 'i'));
        assert(key(Status::NotFound) == (9nat, 'N', 'o', 'F'));
        assert(key(Status::MethodNotAllowed) == (18nat, 'M', 'e', 't'));
        assert(key(Status::NotAcceptable) == (14nat, 'N', 'o', 'e'));
        assert(key(Status::ProxyAuthenticationRequired) == (29nat, 'P', 'r', 'c'));
        assert(key(Status::RequestTimeout) == (15nat, 'R', 'e', ' '));
        assert(key(Status::Conflict) == (8nat, 'C', 'o', 'l'));
        assert(key(Status::Gone) == (4nat, 'G', 'o', 'n'));
        assert(key(Status::LengthRequired) == (15nat, 'L', 'e', 'R'));
        assert(key(Status::PreconditionFailed) == (19nat, 'P', 'r', 'i'));
        assert(key(Status::PayloadTooLarge) == (17nat, 'P', 'a', 'T'));
        assert(key(Status::URITooLong) == (12nat, 'U', 'R', 'o'));
        assert(key(Status::UnsupportedMediaType) == (22nat, 'U', 'n', ' '));
        assert(key(Status::RangeNotSatisfiable) == (21nat, 'R', 'a', 'S'));
        assert(key(Status::ExpectationFailed) == (18nat, 'E', 'x', 'o'));
        assert(key(Status::MisdirectedRequest) == (19nat, 'M', 'i', 'e'));
        assert(key(Status::UnprocessableEntity) == (20nat, 'U', 'n', 'b'));
        assert(key(Status::Locked) == (6nat, 'L', 'o', 'k'));
        assert(key(Status::FailedDependency) == (17nat, 'F', 'a', 'e'));
        assert(key(Status::TooEarly) == (9nat, 'T', 'o', 'E'));
        assert(key(Status::UpgradeRequired) == (16nat, 'U', 'p', 'R'));
        assert(key(Status::PreconditionRequired) == (21nat, 'P', 'r', 'o'));
        assert(key(Status::TooManyRequests) == (17nat, 'T', 'o', ' '));
        assert(key(Status::RequestHeaderFieldsTooLarge) == (31nat, 'R', 'e', 'F'));
        assert(key(Status::UnavailableForLegalReasons) == (29nat, 'U', 'n', 'r'));
        assert(key(Status::InternalServerError) == (21nat, 'I', 'n', 'e'));
        assert(key(Status::NotImplemented) == (15nat, 'N', 'o', 'l'));
        assert(key(Status::BadGateway) == (11nat, 'B', 'a', 'a'));
        assert(key(Status::ServiceUnavailable) == (19nat, 'S', 'e', 'n'));
        assert(key(Status::GatewayTimeout) == (15nat, 'G', 'a', ' '));
        assert(key(Status::HTTPVersionNotSupported) == (26nat, 'H', 'T', 'N'));
        assert(key(Status::VariantAlsoNegotiates) == (23nat, 'V', 'a', 'o'));
        assert(key(Status::InsufficientStorage) == (20nat, 'I', 'n', 'n'));
        assert(key(Status::LoopDetected) == (13nat, 'L', 'o', 'e'));
        assert(key(Status::NotExtended) == (12nat, 'N', 'o', 't'));
        assert(key(Status::NetworkAuthenticationRequired) == (31nat, 'N', 'e', 'i'));
    }

    /// A reason phrase is at most thirty-one bytes long.
    pub proof fn lemma_text_length(self)
        ensures
            self.text().len() <= 31,
    {
        reveal_strlit("Continue");
        reveal_strlit("Switching Protocols");
        reveal_strlit("Processing");
        reveal_strlit("Early Hints");
        reveal_strlit("OK");
        reveal_strlit("Created");
        reveal_strlit("Accepted");
        reveal_strlit("Non-Authoritative Information");
        reveal_strlit("No Content");
        reveal_strlit("Reset Content");
        reveal_strlit("Partial Content");
        reveal_strlit("Multi-Status");
        reveal_strlit("Already Reported");
        reveal_strlit("IM Used");
        reveal_strlit("Multiple Choices");
        reveal_strlit("Moved Permanently");
        reveal_strlit("Found");
        reveal_strlit("See Other");
        reveal_strlit("Not Modified");
        reveal_strlit("Use Proxy");
        reveal_strlit("Temporary Redirect");
        reveal_strlit("Permanent Redirect");
        reveal_strlit("Bad Request");
        reveal_strlit("Unauthorized");
        reveal_strlit("Payment Required");
        reveal_strlit("Forbidden");
        reveal_strlit("Not Found");
        reveal_strlit("Method Not Allowed");
        reveal_strlit("Not Acceptable");
        reveal_strlit("Proxy Authentication Required");
        reveal_strlit("Request Timeout");
        reveal_strlit("Conflict");
        reveal_strlit("Gone");
        reveal_strlit("Length Required");
        reveal_strlit("Precondition Failed");
        reveal_strlit("Payload Too Large");
        reveal_strlit("URI Too Long");
        reveal_strlit("Unsupported Media Type");
        reveal_strlit("Range Not Satisfiable");
        reveal_strlit("Expectation Failed");
        reveal_strlit("Misdirected Request");
        reveal_strlit("Unprocessable Entity");
        reveal_strlit("Locked");
        reveal_strlit("Failed Dependency");
        reveal_strlit("Too Early");
        reveal_strlit("Upgrade Required");
        reveal_strlit("Precondition Required");
        reveal_strlit("Too Many Requests");
        reveal_strlit("Request Header Fields Too Large");
        reveal_strlit("Unavailable For Legal Reasons");
        reveal_strlit("Internal Server Error");
        reveal_strlit("Not Implemented");
        reveal_strlit("Bad Gateway");
        reveal_strlit("Service Unavailable");
        reveal_strlit("Gateway Timeout");
        reveal_strlit("HTTP Version Not Supported");
        reveal_strlit("Variant Also Negotiates");
        reveal_strlit("Insufficient Storage");
        reveal_strlit("Loop Detected");
        reveal_strlit("Not Extended");
        reveal_strlit("Network Authentication Required");
        lemma_ascii_bytes(self.reason());
    }

    /// No two statuses share the text of their reason phrase.
    pub proof fn lemma_text_injective(a: Status, b: Status)
        requires
            a.text() == b.text(),
        ensures
            a == b,
    {
        encode_utf8_decode_utf8(a.reason());
        encode_utf8_decode_utf8(b.reason());
        Self::lemma_reason_injective(a, b);
    }

    /// No two statuses share a phrase: its first three bytes are the code text.
    pub proof fn lemma_phrase_injective(a: Status, b: Status)
        requires
            a.phrase() == b.phrase(),
        ensures
            a == b,
    {
        assert(a.phrase().subrange(0, 3) =~= a.code_text());
        assert(b.phrase().subrange(0, 3) =~= b.code_text());
        Self::lemma_code_text_injective(a, b);
    }

    /// Reading a status's number gives the status back.
    pub proof fn lemma_code_round_trip(status: Status)
        ensures
            Status::spec_from_code(status.code()) == Some(status),
    {
        let found = choose|other: Status| #[trigger] other.code() == status.code();
        Self::lemma_code_injective(found, status);
    }

    /// Reading a status's code text gives the status back.
    pub proof fn lemma_code_text_round_trip(status: Status)
        ensures
            Status::spec_from_code_text(status.code_text()) == Some(status),
    {
        let found = choose|other: Status| #[trigger] other.code_text() == status.code_text();
        Self::lemma_code_text_injective(found, status);
    }

    /// Reading a status's reason phrase gives the status back.
    pub proof fn lemma_text_round_trip(status: Status)
        ensures
            Status::spec_from_text(status.text()) == Some(status),
    {
        let found = choose|other: Status| #[trigger] other.text() == status.text();
        Self::lemma_text_injective(found, status);
    }

    /// Reading a status's phrase gives the status back.
    pub proof fn lemma_phrase_round_trip(status: Status)
        ensures
            Status::spec_from_phrase(status.phrase()) == Some(status),
    {
        let found = choose|other: Status| #[trigger] other.phrase() == status.phrase();
        Self::lemma_phrase_injective(found, status);
    }

    /// The status whose number is `code`, if any.
    pub fn from_code(code: usize) -> (r: Option<Status>)
        ensures
            r == Status::spec_from_code(code as int),
            forall|status: Status| r == Some(status) <==> #[trigger] status.code() == code,
    {
        let r = match code {
            100 => Some(Status::Continue),
            101 => Some(Status::SwitchingProtocols),
            102 => Some(Status::Processing),
            103 => Some(Status::EarlyHints),
            200 => Some(Status::OK),
            201 => Some(Status::Created),
            202 => Some(Status::Accepted),
            203 => Some(Status::NonAuthoritativeInformation),
            204 => Some(Status::NoContent),
            205 => Some(Status::ResetContent),
            206 => Some(Status::PartialContent),
            207 => Some(Status::MultiStatus),
            208 => Some(Status::AlreadyReported),
            226 => Some(Status::IMUsed),
            300 => Some(Status::MultipleChoices),
            301 => Some(Status::MovedPermanently),
            302 => Some(Status::Found),
            303 => Some(Status::SeeOther),
            304 => Some(Status::NotModified),
            305 => Some(Status::UseProxy),
            307 => Some(Status::TemporaryRedirect),
            308 => Some(Status::PermanentRedirect),
            400 => Some(Status::BadRequest),
            401 => Some(Status::Unauthorized),
            402 => Some(Status::PaymentRequired),
            403 => Some(Status::Forbidden),
            404 => Some(Status::NotFound),
            405 => Some(Status::MethodNotAllowed),
            406 => Some(Status::NotAcceptable),
            407 => Some(Status::ProxyAuthenticationRequired),
            408 => Some(Status::RequestTimeout),
            409 => Some(Status::Conflict),
            410 => Some(Status::Gone),
            411 => Some(Status::LengthRequired),
            412 => Some(Status::PreconditionFailed),
            413 => Some(Status::PayloadTooLarge),
            414 => Some(Status::URITooLong),
            415 => Some(Status::UnsupportedMediaType),
            416 => Some(Status::RangeNotSatisfiable),
            417 => Some(Status::ExpectationFailed),
            421 => Some(Status::MisdirectedRequest),
            422 => Some(Status::UnprocessableEntity),
            423 => Some(Status::Locked),
            424 => Some(Status::FailedDependency),
            425 => Some(Status::TooEarly),
            426 => Some(Status::UpgradeRequired),
            428 => Some(Status::PreconditionRequired),
            429 => Some(Status::TooManyRequests),
            431 => Some(Status::RequestHeaderFieldsTooLarge),
            451 => Some(Status::UnavailableForLegalReasons),
            500 => Some(Status::InternalServerError),
            501 => Some(Status::NotImplemented),
            502 => Some(Status::BadGateway),
            503 => Some(Status::ServiceUnavailable),
            504 => Some(Status::GatewayTimeout),
            505 => Some(Status::HTTPVersionNotSupported),
            506 => Some(Status::VariantAlsoNegotiates),
            507 => Some(Status::InsufficientStorage),
            508 => Some(Status::LoopDetected),
            510 => Some(Status::NotExtended),
            511 => Some(Status::NetworkAuthenticationRequired),
            _ => None,
        };
        proof {
            if let Some(found) = r {
                Self::lemma_code_round_trip(found);
            }
        }
        r
    }

    /// The status's line in the registry.
    fn entry(&self) -> (r: Entry)
        ensures
            r.code == self.code(),
            r.code_text.spec_bytes() == self.code_text(),
            r.text@ == self.reason(),
            r.phrase.spec_bytes() == self.phrase(),
    {
        match self {
            Status::Continue => {
                proof {
                    reveal_strlit("100");
                    reveal_strlit("Continue");
                    reveal_strlit("100 Continue");
                    lemma_entry(100, "100"@, "Continue"@, "100 Continue"@);
                }
                Entry {
                    code: 100,
                    code_text: "100",
                    text: "Continue",
                    phrase: "100 Continue",
                }
            },
            Status::SwitchingProtocols => {
                proof {
                    reveal_strlit("101");
                    reveal_strlit("Switching Protocols");
                    reveal_strlit("101 Switching Protocols");
                    lemma_entry(101, "101"@, "Switching Protocols"@, "101 Switching Protocols"@);
                }
                Entry {
                    code: 101,
                    code_text: "101",
                    text: "Switching Protocols",
                    phrase: "101 Switching Protocols",
                }
            },
            Status::Processing => {
                proof {
                    reveal_strlit("102");
                    reveal_strlit("Processing");
                    reveal_strlit("102 Processing");
                    lemma_entry(102, "102"@, "Processing"@, "102 Processing"@);
                }
                Entry {
                    code: 102,
                    code_text: "102",
                    text: "Processing",
                    phrase: "102 Processing",
                }
            },
            Status::EarlyHints => {
                proof {
                    reveal_strlit("103");
                    reveal_strlit("Early Hints");
                    reveal_strlit("103 Early Hints");
                    lemma_entry(103, "103"@, "Early Hints"@, "103 Early Hints"@);
                }
                Entry {
                    code: 103,
                    code_text: "103",
                    text: "Early Hints",
                    phrase: "103 Early Hints",
                }
            },
            Status::OK => {
                proof {
                    reveal_strlit("200");
                    reveal_strlit("OK");
                    reveal_strlit("200 OK");
                    lemma_entry(200, "200"@, "OK"@, "200 OK"@);
                }
                Entry {
                    code: 200,
                    code_text: "200",
                    text: "OK",
                    phrase: "200 OK",
                }
            },
            Status::Created => {
                proof {
                    reveal_strlit("201");
                    reveal_strlit("Created");
                    reveal_strlit("201 Created");
                    lemma_entry(201, "201"@, "Created"@, "201 Created"@);
                }
                Entry {
                    code: 201,
                    code_text: "201",
                    text: "Created",
                    phrase: "201 Created",
                }
            },
            Status::Accepted => {
                proof {
                    reveal_strlit("202");
                    reveal_strlit("Accepted");
                    reveal_strlit("202 Accepted");
                    lemma_entry(202, "202"@, "Accepted"@, "202 Accepted"@);
                }
                Entry {
                    code: 202,
                    code_text: "202",
                    text: "Accepted",
                    phrase: "202 Accepted",
                }
            },
            Status::NonAuthoritativeInformation => {
                proof {
                    reveal_strlit("203");
                    reveal_strlit("Non-Authoritative Information");
                    reveal_strlit("203 Non-Authoritative Information");
                    lemma_entry(
                        203,
                        "203"@,
                        "Non-Authoritative Information"@,
                        "203 Non-Authoritative Information"@,
                    );
                }
                Entry {
                    code: 203,
                    code_text: "203",
                    text: "Non-Authoritative Information",
                    phrase: "203 Non-Authoritative Information",
                }
            },
            Status::NoContent => {
                proof {
                    reveal_strlit("204");
                    reveal_strlit("No Content");
                    reveal_strlit("204 No Content");
                    lemma_entry(204, "204"@, "No Content"@, "204 No Content"@);
                }
                Entry {
                    code: 204,
                    code_text: "204",
                    text: "No Content",
                    phrase: "204 No Content",
                }
            },
            Status::ResetContent => {
                proof {
                    reveal_strlit("205");
                    reveal_strlit("Reset Content");
                    reveal_strlit("205 Reset Content");
                    lemma_entry(205, "205"@, "Reset Content"@, "205 Reset Content"@);
                }
                Entry {
                    code: 205,
                    code_text: "205",
                    text: "Reset Content",
                    phrase: "205 Reset Content",
                }
            },
            Status::PartialContent => {
                proof {
                    reveal_strlit("206");
                    reveal_strlit("Partial Content");
                    reveal_strlit("206 Partial Content");
                    lemma_entry(206, "206"@, "Partial Content"@, "206 Partial Content"@);
                }
                Entry {
                    code: 206,
                    code_text: "206",
                    text: "Partial Content",
                    phrase: "206 Partial Content",
                }
            },
            Status::MultiStatus => {
                proof {
                    reveal_strlit("207");
                    reveal_strlit("Multi-Status");
                    reveal_strlit("207 Multi-Status");
                    lemma_entry(207, "207"@, "Multi-Status"@, "207 Multi-Status"@);
                }
                Entry {
                    code: 207,
                    code_text: "207",
                    text: "Multi-Status",
                    phrase: "207 Multi-Status",
                }
            },
            Status::AlreadyReported => {
                proof {
                    reveal_strlit("208");
                    reveal_strlit("Already Reported");
                    reveal_strlit("208 Already Reported");
                    lemma_entry(208, "208"@, "Already Reported"@, "208 Already Reported"@);
                }
                Entry {
                    code: 208,
                    code_text: "208",
                    text: "Already Reported",
                    phrase: "208 Already Reported",
                }
            },
            Status::IMUsed => {
                proof {
                    reveal_strlit("226");
                    reveal_strlit("IM Used");
                    reveal_strlit("226 IM Used");
                    lemma_entry(226, "226"@, "IM Used"@, "226 IM Used"@);
                }
                Entry {
                    code: 226,
                    code_text: "226",
                    text: "IM Used",
                    phrase: "226 IM Used",
                }
            },
            Status::MultipleChoices => {
                proof {
                    reveal_strlit("300");
                    reveal_strlit("Multiple Choices");
                    reveal_strlit("300 Multiple Choices");
                    lemma_entry(300, "300"@, "Multiple Choices"@, "300 Multiple Choices"@);
                }
                Entry {
                    code: 300,
                    code_text: "300",
                    text: "Multiple Choices",
                    phrase: "300 Multiple Choices",
                }
            },
            Status::MovedPermanently => {
                proof {
                    reveal_strlit("301");
                    reveal_strlit("Moved Permanently");
                    reveal_strlit("301 Moved Permanently");
                    lemma_entry(301, "301"@, "Moved Permanently"@, "301 Moved Permanently"@);
                }
                Entry {
                    code: 301,
                    code_text: "301",
                    text: "Moved Permanently",
                    phrase: "301 Moved Permanently",
                }
            },
            Status::Found => {
                proof {
                    reveal_strlit("302");
                    reveal_strlit("Found");
                    reveal_strlit("302 Found");
                    lemma_entry(302, "302"@, "Found"@, "302 Found"@);
                }
                Entry {
                    code: 302,
                    code_text: "302",
                    text: "Found",
                    phrase: "302 Found",
                }
            },
            Status::SeeOther => {
                proof {
                    reveal_strlit("303");
                    reveal_strlit("See Other");
                    reveal_strlit("303 See Other");
                    lemma_entry(303, "303"@, "See Other"@, "303 See Other"@);
                }
                Entry {
                    code: 303,
                    code_text: "303",
                    text: "See Other",
                    phrase: "303 See Other",
                }
            },
            Status::NotModified => {
                proof {
                    reveal_strlit("304");
                    reveal_strlit("Not Modified");
                    reveal_strlit("304 Not Modified");
                    lemma_entry(304, "304"@, "Not Modified"@, "304 Not Modified"@);
                }
                Entry {
                    code: 304,
                    code_text: "304",
                    text: "Not Modified",
                    phrase: "304 Not Modified",
                }
            },
            Status::UseProxy => {
                proof {
                    reveal_strlit("305");
                    reveal_strlit("Use Proxy");
                    reveal_strlit("305 Use Proxy");
                    lemma_entry(305, "305"@, "Use Proxy"@, "305 Use Proxy"@);
                }
                Entry {
                    code: 305,
                    code_text: "305",
                    text: "Use Proxy",
                    phrase: "305 Use Proxy",
                }
            },
            Status::TemporaryRedirect => {
                proof {
                    reveal_strlit("307");
                    reveal_strlit("Temporary Redirect");
                    reveal_strlit("307 Temporary Redirect");
                    lemma_entry(307, "307"@, "Temporary Redirect"@, "307 Temporary Redirect"@);
                }
                Entry {
                    code: 307,
                    code_text: "307",
                    text: "Temporary Redirect",
                    phrase: "307 Temporary Redirect",
                }
            },
            Status::PermanentRedirect => {
                proof {
                    reveal_strlit("308");
                    reveal_strlit("Permanent Redirect");
                    reveal_strlit("308 Permanent Redirect");
                    lemma_entry(308, "308"@, "Permanent Redirect"@, "308 Permanent Redirect"@);
                }
                Entry {
                    code: 308,
                    code_text: "308",
                    text: "Permanent Redirect",
                    phrase: "308 Permanent Redirect",
                }
            },
            Status::BadRequest => {
                proof {
                    reveal_strlit("400");
                    reveal_strlit("Bad Request");
                    reveal_strlit("400 Bad Request");
                    lemma_entry(400, "400"@, "Bad Request"@, "400 Bad Request"@);
                }
                Entry {
                    code: 400,
                    code_text: "400",
                    text: "Bad Request",
                    phrase: "400 Bad Request",
                }
            },
            Status::Unauthorized => {
                proof {
                    reveal_strlit("401");
                    reveal_strlit("Unauthorized");
                    reveal_strlit("401 Unauthorized");
                    lemma_entry(401, "401"@, "Unauthorized"@, "401 Unauthorized"@);
                }
                Entry {
                    code: 401,
                    code_text: "401",
                    text: "Unauthorized",
                    phrase: "401 Unauthorized",
                }
            },
            Status::PaymentRequired => {
                proof {
                    reveal_strlit("402");
                    reveal_strlit("Payment Required");
                    reveal_strlit("402 Payment Required");
                    lemma_entry(402, "402"@, "Payment Required"@, "402 Payment Required"@);
                }
                Entry {
                    code: 402,
                    code_text: "402",
                    text: "Payment Required",
                    phrase: "402 Payment Required",
                }
            },
            Status::Forbidden => {
                proof {
                    reveal_strlit("403");
                    reveal_strlit("Forbidden");
                    reveal_strlit("403 Forbidden");
                    lemma_entry(403, "403"@, "Forbidden"@, "403 Forbidden"@);
                }
                Entry {
                    code: 403,
                    code_text: "403",
                    text: "Forbidden",
                    phrase: "403 Forbidden",
                }
            },
            Status::NotFound => {
                proof {
                    reveal_strlit("404");
                    reveal_strlit("Not Found");
                    reveal_strlit("404 Not Found");
                    lemma_entry(404, "404"@, "Not Found"@, "404 Not Found"@);
                }
                Entry {
                    code: 404,
                    code_text: "404",
                    text: "Not Found",
                    phrase: "404 Not Found",
                }
            },
            Status::MethodNotAllowed => {
                proof {
                    reveal_strlit("405");
                    reveal_strlit("Method Not Allowed");
                    reveal_strlit("405 Method Not Allowed");
                    lemma_entry(405, "405"@, "Method Not Allowed"@, "405 Method Not Allowed"@);
                }
                Entry {
                    code: 405,
                    code_text: "405",
                    text: "Method Not Allowed",
                    phrase: "405 Method Not Allowed",
                }
            },
            Status::NotAcceptable => {
                proof {
                    reveal_strlit("406");
                    reveal_strlit("Not Acceptable");
                    reveal_strlit("406 Not Acceptable");
                    lemma_entry(406, "406"@, "Not Acceptable"@, "406 Not Acceptable"@);
                }
                Entry {
                    code: 406,
                    code_text: "406",
                    text: "Not Acceptable",
                    phrase: "406 Not Acceptable",
                }
            },
            Status::ProxyAuthenticationRequired => {
                proof {
                    reveal_strlit("407");
                    reveal_strlit("Proxy Authentication Required");
                    reveal_strlit("407 Proxy Authentication Required");
                    lemma_entry(
                        407,
                        "407"@,
                        "Proxy Authentication Required"@,
                        "407 Proxy Authentication Required"@,
                    );
                }
                Entry {
                    code: 407,
                    code_text: "407",
                    text: "Proxy Authentication Required",
                    phrase: "407 Proxy Authentication Required",
                }
            },
            Status::RequestTimeout => {
                proof {
                    reveal_strlit("408");
                    reveal_strlit("Request Timeout");
                    reveal_strlit("408 Request Timeout");
                    lemma_entry(408, "408"@, "Request Timeout"@, "408 Request Timeout"@);
                }
                Entry {
                    code: 408,
                    code_text: "408",
                    text: "Request Timeout",
                    phrase: "408 Request Timeout",
                }
            },
            Status::Conflict => {
                proof {
                    reveal_strlit("409");
                    reveal_strlit("Conflict");
                    reveal_strlit("409 Conflict");
                    lemma_entry(409, "409"@, "Conflict"@, "409 Conflict"@);
                }
                Entry {
                    code: 409,
                    code_text: "409",
                    text: "Conflict",
                    phrase: "409 Conflict",
                }
            },
            Status::Gone => {
                proof {
                    reveal_strlit("410");
                    reveal_strlit("Gone");
                    reveal_strlit("410 Gone");
                    lemma_entry(410, "410"@, "Gone"@, "410 Gone"@);
                }
                Entry {
                    code: 410,
                    code_text: "410",
                    text: "Gone",
                    phrase: "410 Gone",
                }
            },
            Status::LengthRequired => {
                proof {
                    reveal_strlit("411");
                    reveal_strlit("Length Required");
                    reveal_strlit("411 Length Required");
                    lemma_entry(411, "411"@, "Length Required"@, "411 Length Required"@);
                }
                Entry {
                    code: 411,
                    code_text: "411",
                    text: "Length Required",
                    phrase: "411 Length Required",
                }
            },
            Status::PreconditionFailed => {
                proof {
                    reveal_strlit("412");
                    reveal_strlit("Precondition Failed");
                    reveal_strlit("412 Precondition Failed");
                    lemma_entry(412, "412"@, "Precondition Failed"@, "412 Precondition Failed"@);
                }
                Entry {
                    code: 412,
                    code_text: "412",
                    text: "Precondition Failed",
                    phrase: "412 Precondition Failed",
                }
            },
            Status::PayloadTooLarge => {
                proof {
                    reveal_strlit("413");
                    reveal_strlit("Payload Too Large");
                    reveal_strlit("413 Payload Too Large");
                    lemma_entry(413, "413"@, "Payload Too Large"@, "413 Payload Too Large"@);
                }
                Entry {
                    code: 413,
                    code_text: "413",
                    text: "Payload Too Large",
                    phrase: "413 Payload Too Large",
                }
            },
            Status::URITooLong => {
                proof {
                    reveal_strlit("414");
                    reveal_strlit("URI Too Long");
                    reveal_strlit("414 URI Too Long");
                    lemma_entry(414, "414"@, "URI Too Long"@, "414 URI Too Long"@);
                }
                Entry {
                    code: 414,
                    code_text: "414",
                    text: "URI Too Long",
                    phrase: "414 URI Too Long",
                }
            },
            Status::UnsupportedMediaType => {
                proof {
                    reveal_strlit("415");
                    reveal_strlit("Unsupported Media Type");
                    reveal_strlit("415 Unsupported Media Type");
                    lemma_entry(
                        415,
                        "415"@,
                        "Unsupported Media Type"@,
                        "415 Unsupported Media Type"@,
                    );
                }
                Entry {
                    code: 415,
                    code_text: "415",
                    text: "Unsupported Media Type",
                    phrase: "415 Unsupported Media Type",
                }
            },
            Status::RangeNotSatisfiable => {
                proof {
                    reveal_strlit("416");
                    reveal_strlit("Range Not Satisfiable");
                    reveal_strlit("416 Range Not Satisfiable");
                    lemma_entry(
                        416,
                        "416"@,
                        "Range Not Satisfiable"@,
                        "416 Range Not Satisfiable"@,
                    );
                }
                Entry {
                    code: 416,
                    code_text: "416",
                    text: "Range Not Satisfiable",
                    phrase: "416 Range Not Satisfiable",
                }
            },
            Status::ExpectationFailed => {
                proof {
                    reveal_strlit("417");
                    reveal_strlit("Expectation Failed");
                    reveal_strlit("417 Expectation Failed");
                    lemma_entry(417, "417"@, "Expectation Failed"@, "417 Expectation Failed"@);
                }
                Entry {
                    code: 417,
                    code_text: "417",
                    text: "Expectation Failed",
                    phrase: "417 Expectation Failed",
                }
            },
            Status::MisdirectedRequest => {
                proof {
                    reveal_strlit("421");
                    reveal_strlit("Misdirected Request");
                    reveal_strlit("421 Misdirected Request");
                    lemma_entry(421, "421"@, "Misdirected Request"@, "421 Misdirected Request"@);
                }
                Entry {
                    code: 421,
                    code_text: "421",
                    text: "Misdirected Request",
                    phrase: "421 Misdirected Request",
                }
            },
            Status::UnprocessableEntity => {
                proof {
                    reveal_strlit("422");
                    reveal_strlit("Unprocessable Entity");
                    reveal_strlit("422 Unprocessable Entity");
                    lemma_entry(422, "422"@, "Unprocessable Entity"@, "422 Unprocessable Entity"@);
                }
                Entry {
                    code: 422,
                    code_text: "422",
                    text: "Unprocessable Entity",
                    phrase: "422 Unprocessable Entity",
                }
            },
            Status::Locked => {
                proof {
                    reveal_strlit("423");
                    reveal_strlit("Locked");
                    reveal_strlit("423 Locked");
                    lemma_entry(423, "423"@, "Locked"@, "423 Locked"@);
                }
                Entry {
                    code: 423,
                    code_text: "423",
                    text: "Locked",
                    phrase: "423 Locked",
                }
            },
            Status::FailedDependency => {
                proof {
                    reveal_strlit("424");
                    reveal_strlit("Failed Dependency");
                    reveal_strlit("424 Failed Dependency");
                    lemma_entry(424, "424"@, "Failed Dependency"@, "424 Failed Dependency"@);
                }
                Entry {
                    code: 424,
                    code_text: "424",
                    text: "Failed Dependency",
                    phrase: "424 Failed Dependency",
                }
            },
            Status::TooEarly => {
                proof {
                    reveal_strlit("425");
                    reveal_strlit("Too Early");
                    reveal_strlit("425 Too Early");
                    lemma_entry(425, "425"@, "Too Early"@, "425 Too Early"@);
                }
                Entry {
                    code: 425,
                    code_text: "425",
                    text: "Too Early",
                    phrase: "425 Too Early",
                }
            },
            Status::UpgradeRequired => {
                proof {
                    reveal_strlit("426");
                    reveal_strlit("Upgrade Required");
                    reveal_strlit("426 Upgrade Required");
                    lemma_entry(426, "426"@, "Upgrade Required"@, "426 Upgrade Required"@);
                }
                Entry {
                    code: 426,
                    code_text: "426",
                    text: "Upgrade Required",
                    phrase: "426 Upgrade Required",
                }
            },
            Status::PreconditionRequired => {
                proof {
                    reveal_strlit("428");
                    reveal_strlit("Precondition Required");
                    reveal_strlit("428 Precondition Required");
                    lemma_entry(
                        428,
                        "428"@,
                        "Precondition Required"@,
                        "428 Precondition Required"@,
                    );
                }
                Entry {
                    code: 428,
                    code_text: "428",
                    text: "Precondition Required",
                    phrase: "428 Precondition Required",
                }
            },
            Status::TooManyRequests => {
                proof {
                    reveal_strlit("429");
                    reveal_strlit("Too Many Requests");
                    reveal_strlit("429 Too Many Requests");
                    lemma_entry(429, "429"@, "Too Many Requests"@, "429 Too Many Requests"@);
                }
                Entry {
                    code: 429,
                    code_text: "429",
                    text: "Too Many Requests",
                    phrase: "429 Too Many Requests",
                }
            },
            Status::RequestHeaderFieldsTooLarge => {
                proof {
                    reveal_strlit("431");
                    reveal_strlit("Request Header Fields Too Large");
                    reveal_strlit("431 Request Header Fields Too Large");
                    lemma_entry(
                        431,
                        "431"@,
                        "Request Header Fields Too Large"@,
                        "431 Request Header Fields Too Large"@,
                    );
                }
                Entry {
                    code: 431,
                    code_text: "431",
                    text: "Request Header Fields Too Large",
                    phrase: "431 Request Header Fields Too Large",
                }
            },
            Status::UnavailableForLegalReasons => {
                proof {
                    reveal_strlit("451");
                    reveal_strlit("Unavailable For Legal Reasons");
                    reveal_strlit("451 Unavailable For Legal Reasons");
                    lemma_entry(
                        451,
                        "451"@,
                        "Unavailable For Legal Reasons"@,
                        "451 Unavailable For Legal Reasons"@,
                    );
                }
                Entry {
                    code: 451,
                    code_text: "451",
                    text: "Unavailable For Legal Reasons",
                    phrase: "451 Unavailable For Legal Reasons",
                }
            },
            Status::InternalServerError => {
                proof {
                    reveal_strlit("500");
                    reveal_strlit("Internal Server Error");
                    reveal_strlit("500 Internal Server Error");
                    lemma_entry(
                        500,
                        "500"@,
                        "Internal Server Error"@,
                        "500 Internal Server Error"@,
                    );
                }
                Entry {
                    code: 500,
                    code_text: "500",
                    text: "Internal Server Error",
                    phrase: "500 Internal Server Error",
                }
            },
            Status::NotImplemented => {
                proof {
                    reveal_strlit("501");
                    reveal_strlit("Not Implemented");
                    reveal_strlit("501 Not Implemented");
                    lemma_entry(501, "501"@, "Not Implemented"@, "501 Not Implemented"@);
                }
                Entry {
                    code: 501,
                    code_text: "501",
                    text: "Not Implemented",
                    phrase: "501 Not Implemented",
                }
            },
            Status::BadGateway => {
                proof {
                    reveal_strlit("502");
                    reveal_strlit("Bad Gateway");
                    reveal_strlit("502 Bad Gateway");
                    lemma_entry(502, "502"@, "Bad Gateway"@, "502 Bad Gateway"@);
                }
                Entry {
                    code: 502,
                    code_text: "502",
                    text: "Bad Gateway",
                    phrase: "502 Bad Gateway",
                }
            },
            Status::ServiceUnavailable => {
                proof {
                    reveal_strlit("503");
                    reveal_strlit("Service Unavailable");
                    reveal_strlit("503 Service Unavailable");
                    lemma_entry(503, "503"@, "Service Unavailable"@, "503 Service Unavailable"@);
                }
                Entry {
                    code: 503,
                    code_text: "503",
                    text: "Service Unavailable",
                    phrase: "503 Service Unavailable",
                }
            },
            Status::GatewayTimeout => {
                proof {
                    reveal_strlit("504");
                    reveal_strlit("Gateway Timeout");
                    reveal_strlit("504 Gateway Timeout");
                    lemma_entry(504, "504"@, "Gateway Timeout"@, "504 Gateway Timeout"@);
                }
                Entry {
                    code: 504,
                    code_text: "504",
                    text: "Gateway Timeout",
                    phrase: "504 Gateway Timeout",
                }
            },
            Status::HTTPVersionNotSupported => {
                proof {
                    reveal_strlit("505");
                    reveal_strlit("HTTP Version Not Supported");
                    reveal_strlit("505 HTTP Version Not Supported");
                    lemma_entry(
                        505,
                        "505"@,
                        "HTTP Version Not Supported"@,
                        "505 HTTP Version Not Supported"@,
                    );
                }
                Entry {
                    code: 505,
                    code_text: "505",
                    text: "HTTP Version Not Supported",
                    phrase: "505 HTTP Version Not Supported",
                }
            },
            Status::VariantAlsoNegotiates => {
                proof {
                    reveal_strlit("506");
                    reveal_strlit("Variant Also Negotiates");
                    reveal_strlit("506 Variant Also Negotiates");
                    lemma_entry(
                        506,
                        "506"@,
                        "Variant Also Negotiates"@,
                        "506 Variant Also Negotiates"@,
                    );
                }
                Entry {
                    code: 506,
                    code_text: "506",
                    text: "Variant Also Negotiates",
                    phrase: "506 Variant Also Negotiates",
                }
            },
            Status::InsufficientStorage => {
                proof {
                    reveal_strlit("507");
                    reveal_strlit("Insufficient Storage");
                    reveal_strlit("507 Insufficient Storage");
                    lemma_entry(507, "507"@, "Insufficient Storage"@, "507 Insufficient Storage"@);
                }
                Entry {
                    code: 507,
                    code_text: "507",
                    text: "Insufficient Storage",
                    phrase: "507 Insufficient Storage",
                }
            },
            Status::LoopDetected => {
                proof {
                    reveal_strlit("508");
                    reveal_strlit("Loop Detected");
                    reveal_strlit("508 Loop Detected");
                    lemma_entry(508, "508"@, "Loop Detected"@, "508 Loop Detected"@);
                }
                Entry {
                    code: 508,
                    code_text: "508",
                    text: "Loop Detected",
                    phrase: "508 Loop Detected",
                }
            },
            Status::NotExtended => {
                proof {
                    reveal_strlit("510");
                    reveal_strlit("Not Extended");
                    reveal_strlit("510 Not Extended");
                    lemma_entry(510, "510"@, "Not Extended"@, "510 Not Extended"@);
                }
                Entry {
                    code: 510,
                    code_text: "510",
                    text: "Not Extended",
                    phrase: "510 Not Extended",
                }
            },
            Status::NetworkAuthenticationRequired => {
                proof {
                    reveal_strlit("511");
                    reveal_strlit("Network Authentication Required");
                    reveal_strlit("511 Network Authentication Required");
                    lemma_entry(
                        511,
                        "511"@,
                        "Network Authentication Required"@,
                        "511 Network Authentication Required"@,
                    );
                }
                Entry {
                    code: 511,
                    code_text: "511",
                    text: "Network Authentication Required",
                    phrase: "511 Network Authentication Required",
                }
            },
        }
    }

    /// The status's number.
    pub fn get_code(&self) -> (r: usize)
        ensures
            r == self.code(),
    {
        self.entry().code
    }

    /// The status whose code text is `code`, if any: exactly three bytes,
    /// the decimal digits of a status's number.
    pub fn from_code_text(code: &[u8]) -> (r: Option<Status>)
        ensures
            r == Status::spec_from_code_text(code@),
            forall|status: Status| r == Some(status) <==> #[trigger] status.code_text() == code@,
    {
        proof {
            assert forall|status: Status| #[trigger]
                status.code_text() == code@ <==> is_decimal3(code@) && status.code()
                    == decimal3_value(code@) by {
                status.lemma_code_range();
                lemma_decimal3_value(status.code(), code@);
            }
        }
        if code.len() != 3 || !is_digit(code[0]) || !is_digit(code[1]) || !is_digit(code[2]) {
            return None;
        }
        let hundreds: usize = (code[0] - ZERO) as usize;
        let tens: usize = (code[1] - ZERO) as usize;
        let units: usize = (code[2] - ZERO) as usize;
        let r = Status::from_code(hundreds * 100 + tens * 10 + units);
        proof {
            if let Some(found) = r {
                Self::lemma_code_text_round_trip(found);
            }
        }
        r
    }

    /// The number as it is written on the wire: three decimal digits.
    pub fn get_code_text(&self) -> (r: &'static [u8])
        ensures
            r@ == self.code_text(),
    {
        self.entry().code_text.as_bytes()
    }

    /// The status whose reason phrase is `text`, if any. The match is exact.
    pub fn from_text(text: &[u8]) -> (r: Option<Status>)
        ensures
            r == Status::spec_from_text(text@),
            forall|status: Status| r == Some(status) <==> #[trigger] status.text() == text@,
    {
        let mut number: usize = FIRST_CODE;
        while number <= LAST_CODE
            invariant
                FIRST_CODE <= number <= LAST_CODE + 1,
                forall|status: Status| status.code() < number ==> #[trigger] status.text() != text@,
            decreases LAST_CODE + 1 - number,
        {
            if let Some(status) = Status::from_code(number) {
                if bytes_equal(text, status.get_text()) {
                    proof {
                        assert forall|other: Status| #[trigger] other.text() == text@ implies other
                            == status by {
                            Self::lemma_text_injective(other, status);
                        }
                        Self::lemma_text_round_trip(status);
                    }
                    return Some(status);
                }
            }
            number += 1;
        }
        proof {
            assert forall|status: Status| #[trigger] status.text() != text@ by {
                status.lemma_code_range();
            }
        }
        None
    }

    /// The reason phrase as it is written on the wire.
    pub fn get_text(&self) -> (r: &'static [u8])
        ensures
            r@ == self.text(),
    {
        self.entry().text.as_bytes()
    }

    /// The status that a status line shows as `phrase`, if any: a code text,
    /// one space, and the reason phrase of the status with that code text.
    pub fn from_phrase(phrase: &[u8]) -> (r: Option<Status>)
        ensures
            r == Status::spec_from_phrase(phrase@),
            forall|status: Status| r == Some(status) <==> #[trigger] status.phrase() == phrase@,
    {
        if phrase.len() < 3 {
            proof {
                assert forall|status: Status| #[trigger] status.phrase() != phrase@ by {
                    assert(status.phrase().len() >= 3);
                }
            }
            return None;
        }
        let head = vstd::slice::slice_subrange(phrase, 0, 3);
        proof {
            assert forall|status: Status| #[trigger]
                status.phrase() == phrase@ implies status.code_text() == head@ by {
                assert(status.phrase().subrange(0, 3) =~= status.code_text());
            }
        }
        match Status::from_code_text(head) {
            Some(status) => {
                if bytes_equal(phrase, status.get_phrase()) {
                    proof {
                        assert forall|other: Status| #[trigger]
                            other.phrase() == phrase@ implies other == status by {
                            Self::lemma_phrase_injective(other, status);
                        }
                        Self::lemma_phrase_round_trip(status);
                    }
                    Some(status)
                } else {
                    None
                }
            },
            None => None,
        }
    }

    /// The status as a status line shows it, as text.
    pub fn as_str(&self) -> (r: &'static str)
        ensures
            r.spec_bytes() == self.phrase(),
    {
        self.entry().phrase
    }

    /// The status as a status line shows it: the code text, a space, the reason phrase.
    pub fn get_phrase(&self) -> (r: &'static [u8])
        ensures
            r@ == self.phrase(),
    {
        self.entry().phrase.as_bytes()
    }
}

/// Whether `byte` writes a decimal digit.
fn is_digit(byte: u8) -> (r: bool)
    ensures
        r == is_digit_byte(byte),
{
    ZERO <= byte && byte <= ZERO + 9
}

} // verus!
