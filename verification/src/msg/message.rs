//! SOCKS5 handshake messages (RFC 1928 section 3).
//!
//! - [`VersionMessage`]: sent by the client to advertise the authentication
//!   methods it supports.
//! - [`MethodSelection`]: sent by the server to choose one method, or to
//!   report that none is acceptable.
//!
//! ```text
//! VersionMessage  : VER(1)=5  NMETHODS(1)  METHODS(NMETHODS)
//! MethodSelection : VER(1)=5  METHOD(1)
//! ```

use vstd::prelude::*;

use crate::error::SocksError;
use crate::msg::method::Method;

verus! {

/// Client's version/methods message, listing the authentication methods the
/// client supports, in the client's order of preference.
#[derive(Debug, Clone, PartialEq, Eq)]
pub struct VersionMessage {
    /// The SOCKS protocol version (always `0x05` when parsed successfully).
    pub ver: u8,
    /// The authentication methods supported by the client.
    pub methods: Vec<Method>,
}

impl VersionMessage {
    /// The methods a well-formed version message with the given method bytes
    /// declares: one method per byte after the two-byte header.
    pub open spec fn spec_decoded_methods(b: Seq<u8>) -> Seq<Method>
        recommends
            b.len() >= 2 + b[1],
    {
        Seq::new(b[1] as nat, |i: int| Method::spec_of_u8(b[2 + i]))
    }

    /// Creates a new [`VersionMessage`] with the given supported methods.
    pub fn new(methods: Vec<Method>) -> (msg: VersionMessage)
        ensures
            msg.ver == 5,
            msg.methods == methods,
    {
        VersionMessage { ver: 0x05, methods }
    }

    /// Parses a [`VersionMessage`] from raw bytes.
    ///
    /// Fails if the buffer is shorter than two bytes, if the version byte is
    /// not `0x05`, or if the buffer holds fewer method bytes than the
    /// `NMETHODS` count declares. Trailing bytes beyond the declared count
    /// are ignored.
    pub fn from_bytes(bytes: &[u8]) -> (r: Result<VersionMessage, SocksError>)
        ensures
            ({
                let b = bytes@;
                match r {
                    Ok(msg) => {
                        &&& b.len() >= 2
                        &&& b[0] == 5
                        &&& b.len() >= 2 + b[1]
                        &&& msg.ver == 5
                        &&& msg.methods@ == VersionMessage::spec_decoded_methods(b)
                    },
                    Err(e) => {
                        if b.len() < 2 {
                            e == SocksError::VersionMessageTooShort
                        } else if b[0] != 5 {
                            e == SocksError::UnsupportedVersion(b[0])
                        } else {
                            b.len() < 2 + b[1] && e == SocksError::IncompleteVersionMessage
                        }
                    },
                }
            }),
    {
        if bytes.len() < 2 {
            return Err(SocksError::VersionMessageTooShort);
        }
        let ver = bytes[0];
        if ver != 0x05 {
            return Err(SocksError::UnsupportedVersion(ver));
        }
        let nmethods = bytes[1] as usize;
        if bytes.len() < 2 + nmethods {
            return Err(SocksError::IncompleteVersionMessage);
        }
        let mut methods: Vec<Method> = Vec::new();
        let mut i: usize = 0;
        while i < nmethods
            invariant
                i <= nmethods,
                nmethods == bytes@[1],
                bytes@.len() >= 2 + nmethods,
                methods@ == Seq::new(i as nat, |j: int| Method::spec_of_u8(bytes@[2 + j])),
            decreases nmethods - i,
        {
            let m = match Method::from_u8(bytes[2 + i]) {
                Ok(m) => m,
                Err(e) => {
                    return Err(e);
                },
            };
            methods.push(m);
            i = i + 1;
            proof {
                assert(methods@ =~= Seq::new(
                    i as nat,
                    |j: int| Method::spec_of_u8(bytes@[2 + j]),
                ));
            }
        }
        Ok(VersionMessage { ver, methods })
    }
}

/// Server's method selection message, answering a [`VersionMessage`] with
/// the single method the server chose, or `NoAcceptable`.
#[derive(Debug, Clone, PartialEq, Eq)]
pub struct MethodSelection {
    /// The SOCKS protocol version (always `0x05`).
    pub ver: u8,
    /// The authentication method selected by the server.
    pub method: Method,
}

impl MethodSelection {
    /// The two-byte wire form of this selection.
    pub open spec fn spec_bytes(&self) -> Seq<u8> {
        seq![self.ver, self.method.spec_to_u8()]
    }

    /// Creates a new [`MethodSelection`] carrying the given method.
    pub fn new(method: Method) -> (sel: MethodSelection)
        ensures
            sel.ver == 5,
            sel.method == method,
    {
        MethodSelection { ver: 0x05, method }
    }

    /// Serializes this [`MethodSelection`] into its two-byte wire form.
    pub fn to_bytes(&self) -> (b: [u8; 2])
        ensures
            b@ == self.spec_bytes(),
    {
        let b = [self.ver, self.method.to_u8()];
        proof {
            assert(b@ =~= self.spec_bytes());
        }
        b
    }

    /// Parses a [`MethodSelection`] from raw bytes.
    ///
    /// Fails if the buffer is shorter than two bytes or if the version byte
    /// is not `0x05`. The method byte is total, so it never fails.
    pub fn from_bytes(bytes: &[u8]) -> (r: Result<MethodSelection, SocksError>)
        ensures
            ({
                let b = bytes@;
                match r {
                    Ok(sel) => {
                        &&& b.len() >= 2
                        &&& b[0] == 5
                        &&& sel.ver == 5
                        &&& sel.method == Method::spec_of_u8(b[1])
                    },
                    Err(e) => {
                        if b.len() < 2 {
                            e == SocksError::VersionMessageTooShort
                        } else {
                            b[0] != 5 && e == SocksError::UnsupportedVersion(b[0])
                        }
                    },
                }
            }),
    {
        if bytes.len() < 2 {
            return Err(SocksError::VersionMessageTooShort);
        }
        let ver = bytes[0];
        if ver != 0x05 {
            return Err(SocksError::UnsupportedVersion(ver));
        }
        let method = match Method::from_u8(bytes[1]) {
            Ok(m) => m,
            Err(e) => {
                return Err(e);
            },
        };
        Ok(MethodSelection { ver, method })
    }
}

} // verus!
