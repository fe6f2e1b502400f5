//! A minimal HTTP/1.1 message layer: request lines and status lines, the
//! methods and status codes they name, and the client and server values
//! that exchange them.
pub mod http;
