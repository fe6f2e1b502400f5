//! The server's side: the request it reads and the response it writes.
mod request;
mod response;
mod server;

pub use self::server::Server;
pub use self::server::{DEFAULT_ADDRESS, DEFAULT_PORT};

pub use self::request::Rejection;
pub use self::request::Request;
pub use self::request::{
    window, MAX_LENGTH_HEADER, MIN_LENGTH_REQUEST_LINE_FULL, MIN_LENGTH_REQUEST_LINE_SLICED_1,
    MIN_LENGTH_REQUEST_LINE_SLICED_2, MIN_LENGTH_REQUEST_LINE_SLICED_3,
};
pub use self::response::Response;

pub use super::Error;
