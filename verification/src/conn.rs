//! Connection phase of the SOCKS5 protocol (RFC 1928 sections 4 to 6): the
//! client's connection request and the server's reply, both of which embed
//! an address field.

pub mod reply;
pub mod request;
