//! SOCKS5 connection request (RFC 1928 section 4).
//!
//! After negotiation the client asks the server to act on a destination:
//!
//! ```text
//! ConnRequest : VER(1)=5  CMD(1)  RSV(1)=0  ATYP(1)  DST.ADDR  DST.PORT(2)
//! ```
//!
//! The reserved byte is parsed but, matching observed server behavior, its
//! value is not required to be zero.

use vstd::prelude::*;
use vstd::slice::slice_subrange;
use vstd::utf8::valid_utf8;

use crate::ATYP;
use crate::error::SocksError;
use crate::parse::AddrPort;
use crate::parse::AddrView;
use crate::parse::lemma_addr_reencode;
use crate::parse::lemma_addr_round_trip;
use crate::parse::spec_decode_addr;

verus! {

/// The command (`CMD`) of a connection request.
#[derive(Debug, Copy, Clone, PartialEq, Eq, Structural)]
pub enum CMD {
    /// CONNECT (`0x01`): open a TCP connection to the destination.
    Connect,
    /// BIND (`0x02`): accept an inbound connection on the client's behalf.
    Bind,
    /// UDP ASSOCIATE (`0x03`): establish a UDP relay.
    UdpAssociate,
}

impl CMD {
    /// The wire byte of this command.
    pub open spec fn spec_to_u8(self) -> u8 {
        match self {
            CMD::Connect => 0x01,
            CMD::Bind => 0x02,
            CMD::UdpAssociate => 0x03,
        }
    }

    /// Converts this command into its wire byte.
    #[verifier::when_used_as_spec(spec_to_u8)]
    pub fn to_u8(self) -> (b: u8)
        ensures
            b == self.spec_to_u8(),
    {
        match self {
            CMD::Connect => 0x01,
            CMD::Bind => 0x02,
            CMD::UdpAssociate => 0x03,
        }
    }

    /// Whether a byte denotes a recognized command.
    pub open spec fn spec_is_cmd(b: u8) -> bool {
        b == 0x01 || b == 0x02 || b == 0x03
    }

    /// The command denoted by a recognized byte.
    pub open spec fn spec_of_u8(b: u8) -> CMD
        recommends
            CMD::spec_is_cmd(b),
    {
        if b == 0x01 {
            CMD::Connect
        } else if b == 0x02 {
            CMD::Bind
        } else {
            CMD::UdpAssociate
        }
    }
}

/// A SOCKS5 connection request.
#[derive(Debug, Clone, PartialEq, Eq)]
pub struct ConnRequest {
    /// Protocol version (`VER`), `0x05` when parsed.
    pub ver: u8,
    /// Requested command (`CMD`).
    pub cmd: CMD,
    /// Reserved byte (`RSV`); should be `0x00` but is not validated.
    pub rsv: u8,
    /// Address type (`ATYP`) of the destination.
    pub atyp: ATYP,
    /// Destination address and port (`DST.ADDR`, `DST.PORT`).
    pub dst: AddrPort,
}

/// The mathematical value of a [`ConnRequest`].
#[verifier::ext_equal]
pub struct ConnRequestView {
    /// Protocol version byte.
    pub ver: u8,
    /// Requested command.
    pub cmd: CMD,
    /// Reserved byte.
    pub rsv: u8,
    /// Address type of the destination.
    pub atyp: ATYP,
    /// Destination address and port.
    pub dst: AddrView,
}

impl View for ConnRequest {
    type V = ConnRequestView;

    open spec fn view(&self) -> ConnRequestView {
        ConnRequestView {
            ver: self.ver,
            cmd: self.cmd,
            rsv: self.rsv,
            atyp: self.atyp,
            dst: self.dst@,
        }
    }
}

impl ConnRequestView {
    /// Validity of a request value: the tag field agrees with the address
    /// variant and the address itself is well formed. Parsing establishes
    /// this.
    pub open spec fn wf(self) -> bool {
        self.atyp == self.dst.tag() && self.dst.wf()
    }

    /// The wire encoding of this request: the four header bytes followed by
    /// the address field.
    pub open spec fn bytes(self) -> Seq<u8> {
        seq![self.ver, self.cmd.spec_to_u8(), self.rsv, self.atyp.spec_to_u8()] + self.dst.bytes()
    }

    /// Whether a buffer parses as a connection request: four header bytes
    /// with a recognized command and address type, then a complete address
    /// field.
    pub open spec fn spec_decode_ok(b: Seq<u8>) -> bool {
        &&& b.len() >= 4
        &&& CMD::spec_is_cmd(b[1])
        &&& ATYP::spec_is_tag(b[3])
        &&& spec_decode_addr(b.skip(4), ATYP::spec_of_u8(b[3])) is Some
    }

    /// The request a parseable buffer decodes to.
    pub open spec fn spec_decoded(b: Seq<u8>) -> ConnRequestView
        recommends
            ConnRequestView::spec_decode_ok(b),
    {
        ConnRequestView {
            ver: b[0],
            cmd: CMD::spec_of_u8(b[1]),
            rsv: b[2],
            atyp: ATYP::spec_of_u8(b[3]),
            dst: spec_decode_addr(b.skip(4), ATYP::spec_of_u8(b[3]))->Some_0.0,
        }
    }
}

impl ConnRequest {
    /// Creates a new [`ConnRequest`] from its fields.
    pub fn new(ver: u8, cmd: CMD, rsv: u8, atyp: ATYP, dst: AddrPort) -> (req: ConnRequest)
        ensures
            req.ver == ver,
            req.cmd == cmd,
            req.rsv == rsv,
            req.atyp == atyp,
            req.dst == dst,
    {
        ConnRequest { ver, cmd, rsv, atyp, dst }
    }

    /// Serializes this request into its wire form.
    pub fn to_bytes(&self) -> (r: Vec<u8>)
        requires
            self@.dst.wf(),
        ensures
            r@ == self@.bytes(),
    {
        let mut buf: Vec<u8> = Vec::new();
        buf.push(self.ver);
        buf.push(self.cmd.to_u8());
        buf.push(self.rsv);
        buf.push(self.atyp.to_u8());
        let mut addr = self.dst.encode();
        buf.append(&mut addr);
        proof {
            assert(buf@ =~= self@.bytes());
        }
        buf
    }

    /// Parses a connection request from raw bytes.
    ///
    /// Fails if fewer than four bytes are present, on an unrecognized
    /// command or address-type byte, and when the address field is
    /// truncated. Trailing bytes beyond the address field are ignored.
    pub fn from_bytes(buf: &[u8]) -> (r: Result<ConnRequest, SocksError>)
        ensures
            ({
                let b = buf@;
                match r {
                    Ok(req) => {
                        &&& ConnRequestView::spec_decode_ok(b)
                        &&& req@ == ConnRequestView::spec_decoded(b)
                        &&& req@.atyp == req@.dst.tag()
                    },
                    Err(e) => {
                        &&& !ConnRequestView::spec_decode_ok(b)
                        &&& if b.len() < 4 {
                            e == SocksError::ConnRequestTooShort
                        } else if !CMD::spec_is_cmd(b[1]) {
                            e == SocksError::UnsupportedCommand(b[1])
                        } else if !ATYP::spec_is_tag(b[3]) {
                            e == SocksError::InvalidAddressType(b[3])
                        } else if ATYP::spec_of_u8(b[3]) is DomainName {
                            e == SocksError::InvalidDomain
                        } else {
                            e == SocksError::ConnRequestTooShort
                        }
                    },
                }
            }),
    {
        if buf.len() < 4 {
            return Err(SocksError::ConnRequestTooShort);
        }
        let ver = buf[0];
        let cmd = match buf[1] {
            0x01 => CMD::Connect,
            0x02 => CMD::Bind,
            0x03 => CMD::UdpAssociate,
            other => {
                return Err(SocksError::UnsupportedCommand(other));
            },
        };
        let rsv = buf[2];
        let atyp = match buf[3] {
            0x01 => ATYP::V4,
            0x03 => ATYP::DomainName,
            0x04 => ATYP::V6,
            other => {
                return Err(SocksError::InvalidAddressType(other));
            },
        };
        let rest = slice_subrange(buf, 4, buf.len());
        proof {
            assert(rest@ =~= buf@.skip(4));
        }
        let dst = match AddrPort::decode(rest, atyp) {
            Some((a, _)) => a,
            None => {
                return Err(
                    match atyp {
                        ATYP::DomainName => SocksError::InvalidDomain,
                        _ => SocksError::ConnRequestTooShort,
                    },
                );
            },
        };
        let req = ConnRequest { ver, cmd, rsv, atyp, dst };
        proof {
            assert(req@ =~= ConnRequestView::spec_decoded(buf@));
        }
        Ok(req)
    }
}

/// Law: value-level round trip. Encoding any well-formed connection request
/// and decoding the bytes yields the request back.
pub proof fn lemma_conn_request_round_trip(r: ConnRequestView)
    requires
        r.wf(),
    ensures
        ConnRequestView::spec_decode_ok(r.bytes()),
        ConnRequestView::spec_decoded(r.bytes()) == r,
{
    let b = r.bytes();
    lemma_addr_round_trip(r.dst);
    assert(b.skip(4) =~= r.dst.bytes());
    assert(ConnRequestView::spec_decoded(b) =~= r);
}

/// Law: byte-level round trip. A buffer that parses as a connection request
/// and ends exactly at the end of its address field, with a domain name (if
/// any) of valid UTF-8, is reproduced byte for byte by re-encoding the
/// decoded request.
pub proof fn lemma_conn_request_reencode(b: Seq<u8>)
    requires
        ConnRequestView::spec_decode_ok(b),
        b.len() == 4 + spec_decode_addr(b.skip(4), ATYP::spec_of_u8(b[3]))->Some_0.1,
        ATYP::spec_of_u8(b[3]) is DomainName ==> valid_utf8(
            b.skip(4).subrange(1, 1 + b.skip(4)[0]),
        ),
    ensures
        ConnRequestView::spec_decoded(b).bytes() == b,
{
    lemma_addr_reencode(b.skip(4), ATYP::spec_of_u8(b[3]));
    assert(ConnRequestView::spec_decoded(b).bytes() =~= b);
}

} // verus!
