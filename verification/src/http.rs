//! HTTP/1.1 request lines and status lines.
use vstd::prelude::*;
use vstd::std_specs::convert::FromSpecImpl;
use vstd::string::*;

pub mod client;
pub mod method;
pub mod status;
pub mod server;
pub mod text;
pub mod wire;

pub use self::method::Method;
pub use self::status::Status;

pub use self::client::Client;
pub use self::server::Server;

verus! {

/// Length of the shortest method text, such as `GET` or `PUT`.
pub const MIN_LENGTH_METHOD: usize = 3;

/// Length of the shortest target, `/`.
pub const MIN_LENGTH_TARGET: usize = 1;

/// Length of the protocol token, `HTTP/1.1`.
pub const LENGTH_PROTOCOL: usize = 8;

/// Length of the separator between the parts of a line.
pub const LENGTH_SPACE: usize = 1;

/// Length of a line end, carriage return and line feed.
pub const LENGTH_EOL: usize = 2;

/// The fault that the transport reports when a read or a write fails.
/// Nothing is claimed of what it holds.
#[verifier::external_type_specification]
#[verifier::external_body]
pub struct ExIoError(std::io::Error);

/// A fault from below the message layer.
#[derive(Debug)]
pub enum Fault {
    /// The transport failed.
    Transport(std::io::Error),
    /// Bytes that were to be text are not UTF-8.
    Encoding(core::str::Utf8Error),
}

/// What can go wrong.
#[derive(Debug)]
pub enum Error {
    /// A fault from below the message layer.
    InternalError(Fault),
    /// A port that cannot be used.
    InvalidPort,
    /// An address that cannot be used.
    InvalidAddress,
    /// A target that is empty, does not begin with a slash or is not UTF-8.
    InvalidPath,
    /// A protocol version other than HTTP/1.1.
    UnsupportedProtocolVersion,
    /// Bytes that are no request line.
    BadRequest,
    /// Bytes that are no status line.
    BadResponse,
}

impl From<std::io::Error> for Error {
    fn from(error: std::io::Error) -> (r: Error) {
        Error::InternalError(Fault::Transport(error))
    }
}

impl FromSpecImpl<std::io::Error> for Error {
    open spec fn obeys_from_spec() -> bool {
        true
    }

    open spec fn from_spec(error: std::io::Error) -> Error {
        Error::InternalError(Fault::Transport(error))
    }
}

impl From<core::str::Utf8Error> for Error {
    fn from(error: core::str::Utf8Error) -> (r: Error) {
        Error::InternalError(Fault::Encoding(error))
    }
}

impl FromSpecImpl<core::str::Utf8Error> for Error {
    open spec fn obeys_from_spec() -> bool {
        true
    }

    open spec fn from_spec(error: core::str::Utf8Error) -> Error {
        Error::InternalError(Fault::Encoding(error))
    }
}

impl Fault {
    /// Whether `words` are what the fault says of itself when it is displayed.
    pub open spec fn says(self, words: String) -> bool {
        match self {
            Fault::Transport(error) => to_string_from_display_ensures::<std::io::Error>(
                &error,
                words,
            ),
            Fault::Encoding(error) => to_string_from_display_ensures::<core::str::Utf8Error>(
                &error,
                words,
            ),
        }
    }

    /// What the fault says of itself.
    pub fn to_string(&self) -> (r: String)
        ensures
            self.says(r),
    {
        match self {
            Fault::Transport(error) => error.to_string(),
            Fault::Encoding(error) => error.to_string(),
        }
    }
}

impl Error {
    /// What the error is called, unless it wraps a fault: a fault speaks for itself.
    pub open spec fn message(self) -> Option<Seq<char>> {
        match self {
            Error::InternalError(_) => None,
            Error::InvalidPort => Some("Invalid Port"@),
            Error::InvalidAddress => Some("Invalid Address"@),
            Error::InvalidPath => Some("Invalid Path"@),
            Error::UnsupportedProtocolVersion => Some("Unsupported Protocol Version"@),
            Error::BadRequest => Some("Bad Request"@),
            Error::BadResponse => Some("Bad Response"@),
        }
    }

    /// The error in words: its name, or what the fault it wraps says of itself.
    pub fn to_string(&self) -> (r: String)
        ensures
            self.message() matches Some(message) ==> r@ == message,
            self matches Error::InternalError(source) ==> source.says(r),
    {
        match self {
            Error::InternalError(source) => source.to_string(),
            Error::InvalidPort => String::from_str("Invalid Port"),
            Error::InvalidAddress => String::from_str("Invalid Address"),
            Error::InvalidPath => String::from_str("Invalid Path"),
            Error::UnsupportedProtocolVersion => String::from_str("Unsupported Protocol Version"),
            Error::BadRequest => String::from_str("Bad Request"),
            Error::BadResponse => String::from_str("Bad Response"),
        }
    }

    /// The fault that the error wraps, if it wraps one.
    pub fn source(&self) -> (r: Option<&Fault>)
        ensures
            r == (match self {
                Error::InternalError(source) => Some(source),
                _ => None,
            }),
    {
        match self {
            Error::InternalError(source) => Some(source),
            _ => None,
        }
    }
}

} // verus!
