//! DNS-over-QUIC stream layer: the application error codes that end a stream or a
//! connection, and the length-prefixed framing of DNS messages on a stream.

pub mod error_code;
pub mod framing;
pub mod message;
