//! Server-side SOCKS5 protocol negotiation (RFC 1928), with the optional
//! username/password sub-negotiation (RFC 1929).
//!
//! This library covers everything that happens on the wire before relaying
//! starts: the version/method handshake, the optional authentication
//! round trip, the connection request, and the connection reply, together
//! with the binary codec of each message and the shared address
//! representation (IPv4, IPv6, domain name). Each codec is verified against
//! a byte-level specification, and the negotiation itself is a verified
//! state machine.
//!
//! The transport is not part of this crate: callers read and write the raw
//! bytes themselves and hand them to the codecs, and they perform the final
//! connect/relay step after the negotiation returns the client's request.

use vstd::prelude::*;

pub mod auth;
pub mod conn;
pub mod engine;
pub mod error;
pub mod msg;
pub mod parse;

verus! {

/// Address-type tag (`ATYP`) of a SOCKS5 address field (RFC 1928 section 5).
#[derive(Debug, Copy, Clone, PartialEq, Eq, Structural)]
pub enum ATYP {
    /// IPv4 address (wire tag `0x01`).
    V4,
    /// Domain name (wire tag `0x03`).
    DomainName,
    /// IPv6 address (wire tag `0x04`).
    V6,
}

impl ATYP {
    /// The wire tag byte of this address type.
    pub open spec fn spec_to_u8(self) -> u8 {
        match self {
            ATYP::V4 => 0x01,
            ATYP::DomainName => 0x03,
            ATYP::V6 => 0x04,
        }
    }

    /// Converts this address type into its wire tag byte.
    #[verifier::when_used_as_spec(spec_to_u8)]
    pub fn to_u8(self) -> (b: u8)
        ensures
            b == self.spec_to_u8(),
    {
        match self {
            ATYP::V4 => 0x01,
            ATYP::DomainName => 0x03,
            ATYP::V6 => 0x04,
        }
    }

    /// Whether a byte is one of the three recognized address-type tags.
    pub open spec fn spec_is_tag(b: u8) -> bool {
        b == 0x01 || b == 0x03 || b == 0x04
    }

    /// The address type denoted by a recognized tag byte.
    pub open spec fn spec_of_u8(b: u8) -> ATYP
        recommends
            ATYP::spec_is_tag(b),
    {
        if b == 0x01 {
            ATYP::V4
        } else if b == 0x03 {
            ATYP::DomainName
        } else {
            ATYP::V6
        }
    }
}

} // verus!
