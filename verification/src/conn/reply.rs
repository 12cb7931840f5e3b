//! SOCKS5 connection reply (RFC 1928 section 6).
//!
//! After acting on a request, the server answers:
//!
//! ```text
//! ConnReply : VER(1)=5  REP(1)  RSV(1)=0  ATYP(1)  BND.ADDR  BND.PORT(2)
//! ```
//!
//! The bound address and port are meaningful for BIND and UDP ASSOCIATE;
//! for CONNECT the convention is the local address of the outbound socket.

use vstd::prelude::*;
use vstd::slice::slice_subrange;
use vstd::utf8::valid_utf8;

use crate::ATYP;
use crate::error::SocksError;
use crate::parse::AddrPort;
use crate::parse::AddrView;
use crate::parse::lemma_addr_reencode;
use crate::parse::lemma_addr_round_trip;
use crate::parse::spec_decode_addr;

verus! {

/// Reply code (`REP`) of a connection reply: the nine sequential codes
/// `0x00` (succeeded) through `0x08` (address type not supported).
#[derive(Debug, Copy, Clone, PartialEq, Eq, Structural)]
pub enum Rep {
    /// `0x00`: succeeded.
    Succeeded,
    /// `0x01`: general SOCKS server failure.
    GeneralFailure,
    /// `0x02`: connection not allowed by ruleset.
    ConnectionNotAllowed,
    /// `0x03`: network unreachable.
    NetworkUnreachable,
    /// `0x04`: host unreachable.
    HostUnreachable,
    /// `0x05`: connection refused by the destination host.
    ConnectionRefused,
    /// `0x06`: TTL expired.
    TTLExpired,
    /// `0x07`: command not supported.
    CommandNotSupported,
    /// `0x08`: address type not supported.
    AddressTypeNotSupported,
}

impl Rep {
    /// The wire byte of this reply code.
    pub open spec fn spec_to_u8(self) -> u8 {
        match self {
            Rep::Succeeded => 0x00,
            Rep::GeneralFailure => 0x01,
            Rep::ConnectionNotAllowed => 0x02,
            Rep::NetworkUnreachable => 0x03,
            Rep::HostUnreachable => 0x04,
            Rep::ConnectionRefused => 0x05,
            Rep::TTLExpired => 0x06,
            Rep::CommandNotSupported => 0x07,
            Rep::AddressTypeNotSupported => 0x08,
        }
    }

    /// Converts this reply code into its wire byte.
    #[verifier::when_used_as_spec(spec_to_u8)]
    pub fn to_u8(self) -> (b: u8)
        ensures
            b == self.spec_to_u8(),
    {
        match self {
            Rep::Succeeded => 0x00,
            Rep::GeneralFailure => 0x01,
            Rep::ConnectionNotAllowed => 0x02,
            Rep::NetworkUnreachable => 0x03,
            Rep::HostUnreachable => 0x04,
            Rep::ConnectionRefused => 0x05,
            Rep::TTLExpired => 0x06,
            Rep::CommandNotSupported => 0x07,
            Rep::AddressTypeNotSupported => 0x08,
        }
    }

    /// Whether a byte denotes one of the nine known reply codes.
    pub open spec fn spec_is_rep(b: u8) -> bool {
        b <= 0x08
    }

    /// The reply code denoted by a known byte.
    pub open spec fn spec_of_u8(b: u8) -> Rep
        recommends
            Rep::spec_is_rep(b),
    {
        if b == 0x00 {
            Rep::Succeeded
        } else if b == 0x01 {
            Rep::GeneralFailure
        } else if b == 0x02 {
            Rep::ConnectionNotAllowed
        } else if b == 0x03 {
            Rep::NetworkUnreachable
        } else if b == 0x04 {
            Rep::HostUnreachable
        } else if b == 0x05 {
            Rep::ConnectionRefused
        } else if b == 0x06 {
            Rep::TTLExpired
        } else if b == 0x07 {
            Rep::CommandNotSupported
        } else {
            Rep::AddressTypeNotSupported
        }
    }
}

/// A SOCKS5 connection reply.
#[derive(Debug, Clone, PartialEq, Eq)]
pub struct ConnReply {
    /// Protocol version (`VER`), `0x05`.
    pub ver: u8,
    /// Reply code (`REP`).
    pub rep: Rep,
    /// Reserved byte (`RSV`); should be `0x00` but is not validated.
    pub rsv: u8,
    /// Address type (`ATYP`) of the bound address.
    pub atyp: ATYP,
    /// Bound address and port (`BND.ADDR`, `BND.PORT`).
    pub bnd: AddrPort,
}

/// The mathematical value of a [`ConnReply`].
#[verifier::ext_equal]
pub struct ConnReplyView {
    /// Protocol version byte.
    pub ver: u8,
    /// Reply code.
    pub rep: Rep,
    /// Reserved byte.
    pub rsv: u8,
    /// Address type of the bound address.
    pub atyp: ATYP,
    /// Bound address and port.
    pub bnd: AddrView,
}

impl View for ConnReply {
    type V = ConnReplyView;

    open spec fn view(&self) -> ConnReplyView {
        ConnReplyView {
            ver: self.ver,
            rep: self.rep,
            rsv: self.rsv,
            atyp: self.atyp,
            bnd: self.bnd@,
        }
    }
}

impl ConnReplyView {
    /// Validity of a reply value: the tag field agrees with the address
    /// variant and the address itself is well formed.
    pub open spec fn wf(self) -> bool {
        self.atyp == self.bnd.tag() && self.bnd.wf()
    }

    /// The wire encoding of this reply: the four header bytes followed by
    /// the address field.
    pub open spec fn bytes(self) -> Seq<u8> {
        seq![self.ver, self.rep.spec_to_u8(), self.rsv, self.atyp.spec_to_u8()] + self.bnd.bytes()
    }

    /// Whether a buffer parses as a connection reply: four header bytes with
    /// a known reply code and a recognized address type, then a complete
    /// address field.
    pub open spec fn spec_decode_ok(b: Seq<u8>) -> bool {
        &&& b.len() >= 4
        &&& Rep::spec_is_rep(b[1])
        &&& ATYP::spec_is_tag(b[3])
        &&& spec_decode_addr(b.skip(4), ATYP::spec_of_u8(b[3])) is Some
    }

    /// The reply a parseable buffer decodes to.
    pub open spec fn spec_decoded(b: Seq<u8>) -> ConnReplyView
        recommends
            ConnReplyView::spec_decode_ok(b),
    {
        ConnReplyView {
            ver: b[0],
            rep: Rep::spec_of_u8(b[1]),
            rsv: b[2],
            atyp: ATYP::spec_of_u8(b[3]),
            bnd: spec_decode_addr(b.skip(4), ATYP::spec_of_u8(b[3]))->Some_0.0,
        }
    }
}

impl ConnReply {
    /// Creates a new [`ConnReply`] from its fields.
    pub fn new(ver: u8, rep: Rep, rsv: u8, atyp: ATYP, bnd: AddrPort) -> (reply: ConnReply)
        ensures
            reply.ver == ver,
            reply.rep == rep,
            reply.rsv == rsv,
            reply.atyp == atyp,
            reply.bnd == bnd,
    {
        ConnReply { ver, rep, rsv, atyp, bnd }
    }

    /// Serializes this reply into its wire form.
    pub fn to_bytes(&self) -> (r: Vec<u8>)
        requires
            self@.bnd.wf(),
        ensures
            r@ == self@.bytes(),
    {
        let mut buf: Vec<u8> = Vec::new();
        buf.push(self.ver);
        buf.push(self.rep.to_u8());
        buf.push(self.rsv);
        buf.push(self.atyp.to_u8());
        let mut addr = self.bnd.encode();
        buf.append(&mut addr);
        proof {
            assert(buf@ =~= self@.bytes());
        }
        buf
    }

    /// Parses a connection reply from raw bytes.
    ///
    /// Fails if fewer than four bytes are present, on an unknown reply code
    /// or address-type byte, and when the address field is truncated.
    /// Trailing bytes beyond the address field are ignored.
    pub fn from_bytes(buf: &[u8]) -> (r: Result<ConnReply, SocksError>)
        ensures
            ({
                let b = buf@;
                match r {
                    Ok(reply) => {
                        &&& ConnReplyView::spec_decode_ok(b)
                        &&& reply@ == ConnReplyView::spec_decoded(b)
                        &&& reply@.atyp == reply@.bnd.tag()
                    },
                    Err(e) => {
                        &&& !ConnReplyView::spec_decode_ok(b)
                        &&& if b.len() < 4 {
                            e == SocksError::ReplyTooShort
                        } else if !Rep::spec_is_rep(b[1]) {
                            e == SocksError::ConnRequestTooShort
                        } else if !ATYP::spec_is_tag(b[3]) {
                            e == SocksError::InvalidAddressType(b[3])
                        } else if ATYP::spec_of_u8(b[3]) is DomainName {
                            e == SocksError::InvalidDomain
                        } else {
                            e == SocksError::ConnRequestTooShort
                        }
                    },
                }
            }),
    {
        if buf.len() < 4 {
            return Err(SocksError::ReplyTooShort);
        }
        let ver = buf[0];
        let rep = match buf[1] {
            0x00 => Rep::Succeeded,
            0x01 => Rep::GeneralFailure,
            0x02 => Rep::ConnectionNotAllowed,
            0x03 => Rep::NetworkUnreachable,
            0x04 => Rep::HostUnreachable,
            0x05 => Rep::ConnectionRefused,
            0x06 => Rep::TTLExpired,
            0x07 => Rep::CommandNotSupported,
            0x08 => Rep::AddressTypeNotSupported,
            _ => {
                return Err(SocksError::ConnRequestTooShort);
            },
        };
        let rsv = buf[2];
        let atyp = match buf[3] {
            0x01 => ATYP::V4,
            0x03 => ATYP::DomainName,
            0x04 => ATYP::V6,
            other => {
                return Err(SocksError::InvalidAddressType(other));
            },
        };
        let rest = slice_subrange(buf, 4, buf.len());
        proof {
            assert(rest@ =~= buf@.skip(4));
        }
        let bnd = match AddrPort::decode(rest, atyp) {
            Some((a, _)) => a,
            None => {
                return Err(
                    match atyp {
                        ATYP::DomainName => SocksError::InvalidDomain,
                        _ => SocksError::ConnRequestTooShort,
                    },
                );
            },
        };
        let reply = ConnReply { ver, rep, rsv, atyp, bnd };
        proof {
            assert(reply@ =~= ConnReplyView::spec_decoded(buf@));
        }
        Ok(reply)
    }
}

/// Law: value-level round trip. Encoding any well-formed connection reply
/// and decoding the bytes yields the reply back.
pub proof fn lemma_conn_reply_round_trip(r: ConnReplyView)
    requires
        r.wf(),
    ensures
        ConnReplyView::spec_decode_ok(r.bytes()),
        ConnReplyView::spec_decoded(r.bytes()) == r,
{
    let b = r.bytes();
    lemma_addr_round_trip(r.bnd);
    assert(b.skip(4) =~= r.bnd.bytes());
    assert(ConnReplyView::spec_decoded(b) =~= r);
}

/// Law: byte-level round trip. A buffer that parses as a connection reply
/// and ends exactly at the end of its address field, with a domain name (if
/// any) of valid UTF-8, is reproduced byte for byte by re-encoding the
/// decoded reply.
pub proof fn lemma_conn_reply_reencode(b: Seq<u8>)
    requires
        ConnReplyView::spec_decode_ok(b),
        b.len() == 4 + spec_decode_addr(b.skip(4), ATYP::spec_of_u8(b[3]))->Some_0.1,
        ATYP::spec_of_u8(b[3]) is DomainName ==> valid_utf8(
            b.skip(4).subrange(1, 1 + b.skip(4)[0]),
        ),
    ensures
        ConnReplyView::spec_decoded(b).bytes() == b,
{
    lemma_addr_reencode(b.skip(4), ATYP::spec_of_u8(b[3]));
    assert(ConnReplyView::spec_decoded(b).bytes() =~= b);
}

} // verus!
