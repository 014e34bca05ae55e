//! A small request/response protocol over a byte stream: every request and
//! every response is acknowledged, and all four messages of an exchange carry
//! the sequence number of the request.

pub mod client;
pub mod message;
pub mod server;
pub mod transport;
pub mod laws;
