//! Authentication reply of the username/password sub-negotiation
//! (RFC 1929 section 2).
//!
//! After the client sends its credentials, the server answers with two
//! bytes:
//!
//! ```text
//! AuthReply : VER(1)=1  STATUS(1)    # 0x00 success, any other value failure
//! ```
//!
//! On a non-zero status the client must close the connection.

use vstd::prelude::*;

use crate::error::SocksError;

verus! {

/// Outcome of an authentication attempt.
#[derive(Debug, Copy, Clone, PartialEq, Eq, Structural)]
pub enum AuthStatus {
    /// Authentication succeeded (`STATUS = 0x00`).
    Success,
    /// Authentication failed (sent as `STATUS = 0x01`; any non-zero status
    /// byte parses to this).
    Failure,
}

impl AuthStatus {
    /// The status byte this outcome is sent as.
    pub open spec fn spec_to_u8(self) -> u8 {
        match self {
            AuthStatus::Success => 0x00,
            AuthStatus::Failure => 0x01,
        }
    }

    /// Converts this outcome into its status byte.
    #[verifier::when_used_as_spec(spec_to_u8)]
    pub fn to_u8(self) -> (b: u8)
        ensures
            b == self.spec_to_u8(),
    {
        match self {
            AuthStatus::Success => 0x00,
            AuthStatus::Failure => 0x01,
        }
    }
}

/// The server's authentication reply.
#[derive(Debug, Clone, PartialEq, Eq)]
pub struct AuthReply {
    /// Sub-negotiation version (`VER`), always `0x01`.
    pub ver: u8,
    /// The authentication outcome (`STATUS`).
    pub status: AuthStatus,
}

impl AuthReply {
    /// The two-byte wire form of this reply.
    pub open spec fn spec_bytes(&self) -> Seq<u8> {
        seq![self.ver, self.status.spec_to_u8()]
    }

    /// Creates a new [`AuthReply`] with the given status.
    pub fn new(status: AuthStatus) -> (reply: AuthReply)
        ensures
            reply.ver == 1,
            reply.status == status,
    {
        AuthReply { ver: 0x01, status }
    }

    /// Serializes this reply into its two-byte wire form `[VER, STATUS]`.
    pub fn to_bytes(&self) -> (b: [u8; 2])
        ensures
            b@ == self.spec_bytes(),
    {
        let b = [self.ver, self.status.to_u8()];
        proof {
            assert(b@ =~= self.spec_bytes());
        }
        b
    }

    /// Parses an authentication reply from a buffer of exactly two bytes.
    ///
    /// Fails if the buffer is not two bytes long or if the version byte is
    /// not `0x01`. A zero status byte is success; every other value is
    /// failure.
    pub fn from_bytes(bytes: &[u8]) -> (r: Result<AuthReply, SocksError>)
        ensures
            ({
                let b = bytes@;
                match r {
                    Ok(reply) => {
                        &&& b.len() == 2
                        &&& b[0] == 1
                        &&& reply.ver == 1
                        &&& reply.status == (if b[1] == 0 {
                            AuthStatus::Success
                        } else {
                            AuthStatus::Failure
                        })
                    },
                    Err(e) => {
                        if b.len() != 2 {
                            e == SocksError::AuthMessageTooShort
                        } else {
                            b[0] != 1 && e == SocksError::UnsupportedAuthVersion(b[0])
                        }
                    },
                }
            }),
    {
        if bytes.len() != 2 {
            return Err(SocksError::AuthMessageTooShort);
        }
        let ver = bytes[0];
        if ver != 0x01 {
            return Err(SocksError::UnsupportedAuthVersion(ver));
        }
        let status = if bytes[1] == 0x00 {
            AuthStatus::Success
        } else {
            AuthStatus::Failure
        };
        Ok(AuthReply { ver, status })
    }
}

} // verus!
