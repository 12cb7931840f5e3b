//! Username/password sub-negotiation (RFC 1929): the client's credential
//! message and the server's status reply.

pub mod reply;
pub mod request;
