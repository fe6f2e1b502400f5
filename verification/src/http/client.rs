//! The client's side: the request it writes and the response it reads.
mod client;
mod request;
mod response;

pub use self::client::Client;
pub use self::client::{DEFAULT_ADDRESS, DEFAULT_PORT};

pub use self::request::Request;
pub use self::response::Response;
pub use self::response::{window, MAX_HEADER_LENGTH};

pub use super::Error;
