//! Error type of the SOCKS5 negotiation, grouped by protocol phase:
//! version/method selection (RFC 1928 section 3), username/password
//! authentication (RFC 1929), and connection requests and replies
//! (RFC 1928 sections 4 to 6).
//!
//! Every error is terminal for the connection that produced it: the
//! negotiation is never resumed from a partial state.

use vstd::prelude::*;

verus! {

/// Everything that can go wrong while parsing or running the SOCKS5
/// negotiation.
#[derive(Debug, Clone, PartialEq, Eq)]
pub enum SocksError {
    /// The client requested an unsupported SOCKS protocol version.
    UnsupportedVersion(u8),
    /// The client's version message was too short to contain mandatory fields.
    VersionMessageTooShort,
    /// The client's version message was truncated and missing method bytes.
    IncompleteVersionMessage,
    /// The client requested an unknown or invalid authentication method.
    UnknownMethod(u8),
    /// The client used an unsupported authentication version.
    UnsupportedAuthVersion(u8),
    /// The authentication message from the client was too short.
    AuthMessageTooShort,
    /// The client's authentication attempt failed, with a reason.
    AuthFailed(String),
    /// The client specified an invalid or unsupported address type.
    InvalidAddressType(u8),
    /// The client provided an invalid or malformed domain name field.
    InvalidDomain,
    /// The connection request from the client was too short.
    ConnRequestTooShort,
    /// The client requested an unsupported command.
    UnsupportedCommand(u8),
    /// The reply message was too short.
    ReplyTooShort,
}

} // verus!
