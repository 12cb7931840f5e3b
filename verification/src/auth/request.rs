//! Authentication request of the username/password sub-negotiation
//! (RFC 1929 section 2).
//!
//! After the server selects username/password authentication, the client
//! sends:
//!
//! ```text
//! AuthRequest : VER(1)=1  ULEN(1)  UNAME(ULEN)  PLEN(1)  PASSWD(PLEN)
//! ```
//!
//! Username and password must be valid UTF-8; unlike domain names they are
//! rejected, not substituted, on ill-formed bytes.

use vstd::prelude::*;
use vstd::slice::slice_subrange;
use vstd::utf8::decode_utf8;
use vstd::utf8::valid_utf8;

use crate::error::SocksError;

verus! {

/// The client's credentials.
#[derive(Debug, Clone, PartialEq, Eq)]
pub struct AuthRequest {
    /// Sub-negotiation version (`VER`), always `0x01`.
    pub ver: u8,
    /// The username (`UNAME`).
    pub uname: String,
    /// The password (`PASSWD`).
    pub passwd: String,
}

/// Relies on `String::from_utf8` (with the error made `None`): it succeeds
/// exactly on valid UTF-8 and returns the exact decoding of the bytes.
#[verifier::external_body]
fn utf8_string(bytes: &[u8]) -> (r: Option<String>)
    ensures
        r matches Some(s) ==> valid_utf8(bytes@) && s@ == decode_utf8(bytes@),
        r is None ==> !valid_utf8(bytes@),
{
    String::from_utf8(bytes.to_vec()).ok()
}

impl AuthRequest {
    /// The declared username length: byte 1.
    pub open spec fn spec_ulen(b: Seq<u8>) -> int {
        b[1] as int
    }

    /// The raw username bytes: they follow the two-byte header.
    pub open spec fn spec_uname_bytes(b: Seq<u8>) -> Seq<u8> {
        b.subrange(2, 2 + Self::spec_ulen(b))
    }

    /// The declared password length: the byte after the username.
    pub open spec fn spec_plen(b: Seq<u8>) -> int {
        b[2 + Self::spec_ulen(b)] as int
    }

    /// The raw password bytes: they follow the password-length byte.
    pub open spec fn spec_passwd_bytes(b: Seq<u8>) -> Seq<u8> {
        b.subrange(3 + Self::spec_ulen(b), 3 + Self::spec_ulen(b) + Self::spec_plen(b))
    }

    /// Creates a new [`AuthRequest`] from a username and password.
    pub fn new(uname: String, passwd: String) -> (req: AuthRequest)
        ensures
            req.ver == 1,
            req.uname == uname,
            req.passwd == passwd,
    {
        AuthRequest { ver: 0x01, uname, passwd }
    }

    /// Parses an authentication request from raw bytes.
    ///
    /// Fails if the buffer is shorter than two bytes, if the version byte is
    /// not `0x01`, if the buffer is truncated before the end of the username
    /// or password, or if either field is not valid UTF-8. Trailing bytes
    /// beyond the password are ignored.
    pub fn from_bytes(bytes: &[u8]) -> (r: Result<AuthRequest, SocksError>)
        ensures
            ({
                let b = bytes@;
                match r {
                    Ok(req) => {
                        &&& b.len() >= 2
                        &&& b[0] == 1
                        &&& b.len() >= 3 + Self::spec_ulen(b)
                        &&& valid_utf8(Self::spec_uname_bytes(b))
                        &&& b.len() >= 3 + Self::spec_ulen(b) + Self::spec_plen(b)
                        &&& valid_utf8(Self::spec_passwd_bytes(b))
                        &&& req.ver == 1
                        &&& req.uname@ == decode_utf8(Self::spec_uname_bytes(b))
                        &&& req.passwd@ == decode_utf8(Self::spec_passwd_bytes(b))
                    },
                    Err(e) => {
                        if b.len() < 2 {
                            e == SocksError::AuthMessageTooShort
                        } else if b[0] != 1 {
                            e == SocksError::UnsupportedAuthVersion(b[0])
                        } else if b.len() < 3 + Self::spec_ulen(b) {
                            e matches SocksError::AuthFailed(m) && m@
                                == "truncated before username"@
                        } else if !valid_utf8(Self::spec_uname_bytes(b)) {
                            e matches SocksError::AuthFailed(m) && m@
                                == "invalid UTF-8 in username"@
                        } else if b.len() < 3 + Self::spec_ulen(b) + Self::spec_plen(b) {
                            e matches SocksError::AuthFailed(m) && m@
                                == "truncated before password"@
                        } else {
                            !valid_utf8(Self::spec_passwd_bytes(b)) && (e
                                matches SocksError::AuthFailed(m) && m@
                                == "invalid UTF-8 in password"@)
                        }
                    },
                }
            }),
    {
        if bytes.len() < 2 {
            return Err(SocksError::AuthMessageTooShort);
        }
        let ver = bytes[0];
        if ver != 0x01 {
            return Err(SocksError::UnsupportedAuthVersion(ver));
        }
        let ulen = bytes[1] as usize;
        if bytes.len() < 2 + ulen + 1 {
            return Err(SocksError::AuthFailed("truncated before username".to_owned()));
        }
        let uname_bytes = slice_subrange(bytes, 2, 2 + ulen);
        let uname = match utf8_string(uname_bytes) {
            Some(s) => s,
            None => {
                return Err(SocksError::AuthFailed("invalid UTF-8 in username".to_owned()));
            },
        };
        let plen_index = 2 + ulen;
        let plen = bytes[plen_index] as usize;
        if bytes.len() < plen_index + 1 + plen {
            return Err(SocksError::AuthFailed("truncated before password".to_owned()));
        }
        let passwd_bytes = slice_subrange(bytes, plen_index + 1, plen_index + 1 + plen);
        let passwd = match utf8_string(passwd_bytes) {
            Some(s) => s,
            None => {
                return Err(SocksError::AuthFailed("invalid UTF-8 in password".to_owned()));
            },
        };
        Ok(AuthRequest { ver, uname, passwd })
    }
}

} // verus!
