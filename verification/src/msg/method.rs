//! SOCKS5 authentication methods (RFC 1928 section 3).
//!
//! A method is carried on the wire as a single byte. The mapping between
//! bytes and [`Method`] values is total in both directions:
//!
//! ```text
//! 0x00        No authentication required
//! 0x01        GSS-API
//! 0x02        Username/password
//! 0x03-0x7F   IANA-assigned
//! 0x80-0xFE   Reserved for private methods
//! 0xFF        No acceptable methods
//! ```

use vstd::prelude::*;

use crate::error::SocksError;

verus! {

/// Fixed authentication methods reserved by the SOCKS5 specification.
#[derive(Debug, Copy, Clone, PartialEq, Eq, Structural)]
pub enum FixedMethod {
    /// No authentication required (`0x00`).
    NoAuth,
    /// GSS-API authentication (`0x01`).
    GssApi,
    /// Username/password authentication (`0x02`).
    UsePass,
    /// No acceptable methods (`0xFF`).
    NoAcceptable,
}

/// Any SOCKS5 authentication method: a reserved value, an IANA-assigned
/// value (`0x03`-`0x7F`), or a private-use value (`0x80`-`0xFE`).
#[derive(Debug, Copy, Clone, PartialEq, Eq, Structural)]
pub enum Method {
    /// A fixed, reserved method.
    Fixed(FixedMethod),
    /// An IANA-assigned method (`0x03`-`0x7F`).
    IanaAssigned(u8),
    /// A private-use method (`0x80`-`0xFE`).
    Private(u8),
}

impl FixedMethod {
    /// The byte representation of this fixed method.
    pub open spec fn spec_to_u8(self) -> u8 {
        match self {
            FixedMethod::NoAuth => 0x00,
            FixedMethod::GssApi => 0x01,
            FixedMethod::UsePass => 0x02,
            FixedMethod::NoAcceptable => 0xFF,
        }
    }

    /// Converts a [`FixedMethod`] into its byte representation.
    #[verifier::when_used_as_spec(spec_to_u8)]
    pub fn to_u8(self) -> (b: u8)
        ensures
            b == self.spec_to_u8(),
    {
        match self {
            FixedMethod::NoAuth => 0x00,
            FixedMethod::GssApi => 0x01,
            FixedMethod::UsePass => 0x02,
            FixedMethod::NoAcceptable => 0xFF,
        }
    }

    /// Whether a byte denotes one of the reserved methods.
    pub open spec fn spec_is_fixed(b: u8) -> bool {
        b == 0x00 || b == 0x01 || b == 0x02 || b == 0xFF
    }

    /// The fixed method denoted by a reserved byte.
    pub open spec fn spec_of_u8(b: u8) -> FixedMethod
        recommends
            FixedMethod::spec_is_fixed(b),
    {
        if b == 0x00 {
            FixedMethod::NoAuth
        } else if b == 0x01 {
            FixedMethod::GssApi
        } else if b == 0x02 {
            FixedMethod::UsePass
        } else {
            FixedMethod::NoAcceptable
        }
    }

    /// Attempts to parse a [`FixedMethod`] from a byte. Succeeds exactly on
    /// the four reserved values; any other byte is reported as an unknown
    /// method.
    pub fn try_from_u8(byte: u8) -> (r: Result<FixedMethod, SocksError>)
        ensures
            FixedMethod::spec_is_fixed(byte) ==> (r matches Ok(m) && m
                == FixedMethod::spec_of_u8(byte)),
            !FixedMethod::spec_is_fixed(byte) ==> (r matches Err(e) && e
                == SocksError::UnknownMethod(byte)),
    {
        match byte {
            0x00 => Ok(FixedMethod::NoAuth),
            0x01 => Ok(FixedMethod::GssApi),
            0x02 => Ok(FixedMethod::UsePass),
            0xFF => Ok(FixedMethod::NoAcceptable),
            _ => Err(SocksError::UnknownMethod(byte)),
        }
    }
}

impl Method {
    /// The byte representation of this method.
    pub open spec fn spec_to_u8(self) -> u8 {
        match self {
            Method::Fixed(f) => f.spec_to_u8(),
            Method::IanaAssigned(b) => b,
            Method::Private(b) => b,
        }
    }

    /// Converts a [`Method`] into its byte representation.
    #[verifier::when_used_as_spec(spec_to_u8)]
    pub fn to_u8(self) -> (b: u8)
        ensures
            b == self.spec_to_u8(),
    {
        match self {
            Method::Fixed(f) => f.to_u8(),
            Method::IanaAssigned(b) => b,
            Method::Private(b) => b,
        }
    }

    /// The method denoted by a byte. Every byte denotes a method, so this
    /// mapping is total.
    pub open spec fn spec_of_u8(b: u8) -> Method {
        if FixedMethod::spec_is_fixed(b) {
            Method::Fixed(FixedMethod::spec_of_u8(b))
        } else if b <= 0x7F {
            Method::IanaAssigned(b)
        } else {
            Method::Private(b)
        }
    }

    /// Whether a method value is in its canonical form: range payloads carry
    /// a byte of their own range. Parsing only produces such values.
    pub open spec fn spec_wf(self) -> bool {
        match self {
            Method::Fixed(_) => true,
            Method::IanaAssigned(b) => 0x03 <= b <= 0x7F,
            Method::Private(b) => 0x80 <= b <= 0xFE,
        }
    }

    /// Parses a [`Method`] from a byte. The full byte range `0x00..=0xFF` is
    /// covered, so this never fails.
    pub fn from_u8(byte: u8) -> (r: Result<Method, SocksError>)
        ensures
            r matches Ok(m) && m == Method::spec_of_u8(byte),
            r matches Ok(m) && m.spec_wf(),
    {
        match byte {
            0x00 => Ok(Method::Fixed(FixedMethod::NoAuth)),
            0x01 => Ok(Method::Fixed(FixedMethod::GssApi)),
            0x02 => Ok(Method::Fixed(FixedMethod::UsePass)),
            0xFF => Ok(Method::Fixed(FixedMethod::NoAcceptable)),
            0x03..=0x7F => Ok(Method::IanaAssigned(byte)),
            _ => Ok(Method::Private(byte)),
        }
    }
}

/// Law: byte-level round trip. Decoding any byte and re-encoding the decoded
/// method reproduces the byte, so the byte-to-method mapping is a total
/// bijection on the raw byte.
pub proof fn lemma_method_byte_round_trip(b: u8)
    ensures
        Method::spec_of_u8(b).spec_to_u8() == b,
{
}

/// Law: value-level round trip. Encoding a canonical method and decoding the
/// byte reproduces the method.
pub proof fn lemma_method_value_round_trip(m: Method)
    requires
        m.spec_wf(),
    ensures
        Method::spec_of_u8(m.spec_to_u8()) == m,
{
}

} // verus!
