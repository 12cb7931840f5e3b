//! The SOCKS5 handshake (RFC 1928 section 3): authentication-method
//! identifiers and the version/method-selection message pair.

pub mod message;
pub mod method;
