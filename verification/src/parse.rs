//! SOCKS5 address fields (RFC 1928 section 5).
//!
//! Requests and replies carry a destination or bound address in one of three
//! wire forms, selected by the address-type tag ([`crate::ATYP`]):
//!
//! ```text
//! 0x01  4 address bytes            PORT(2, big endian)
//! 0x04  16 address bytes           PORT(2, big endian)
//! 0x03  LEN(1)  LEN name bytes     PORT(2, big endian)
//! ```
//!
//! [`AddrPort`] is the decoded form. Domain names are decoded permissively:
//! bytes that are not valid UTF-8 are not rejected but go through lossy
//! substitution, exactly as the containing server treats them.

use vstd::prelude::*;
use vstd::slice::slice_subrange;
use vstd::utf8::decode_utf8;
use vstd::utf8::decode_utf8_encode_utf8;
use vstd::utf8::encode_utf8;
use vstd::utf8::encode_utf8_decode_utf8;
use vstd::utf8::encode_utf8_valid_utf8;
use vstd::utf8::valid_utf8;

use crate::ATYP;

verus! {

/// A destination or bound address together with its port: an IPv4 address
/// (4 bytes), an IPv6 address (16 bytes), or a domain name.
#[derive(Debug, Clone, PartialEq, Eq)]
pub enum AddrPort {
    /// An IPv4 address and port.
    V4([u8; 4], u16),
    /// An IPv6 address and port.
    V6([u8; 16], u16),
    /// A domain name and port.
    Domain(String, u16),
}

/// The mathematical value of an [`AddrPort`]: address bytes or name
/// characters as sequences.
#[verifier::ext_equal]
pub enum AddrView {
    /// An IPv4 address (4 bytes) and port.
    V4 { ip: Seq<u8>, port: u16 },
    /// An IPv6 address (16 bytes) and port.
    V6 { ip: Seq<u8>, port: u16 },
    /// A domain name and port.
    Domain { name: Seq<char>, port: u16 },
}

impl View for AddrPort {
    type V = AddrView;

    open spec fn view(&self) -> AddrView {
        match self {
            AddrPort::V4(ip, port) => AddrView::V4 { ip: ip@, port: *port },
            AddrPort::V6(ip, port) => AddrView::V6 { ip: ip@, port: *port },
            AddrPort::Domain(name, port) => AddrView::Domain { name: name@, port: *port },
        }
    }
}

/// The big-endian 16-bit value of two bytes.
pub open spec fn spec_be16(hi: u8, lo: u8) -> u16 {
    (hi * 256 + lo) as u16
}

/// The two big-endian bytes of a 16-bit value.
pub open spec fn spec_be16_bytes(p: u16) -> Seq<u8> {
    seq![(p / 256) as u8, (p % 256) as u8]
}

/// What `String::from_utf8_lossy` returns on the given bytes. Its value on
/// bytes that are not valid UTF-8 (replacement of ill-formed sequences) is
/// not spelled out here; on valid UTF-8 it agrees with
/// [`vstd::utf8::decode_utf8`], which [`spec_domain_chars`] states.
pub uninterp spec fn domain_lossy_chars(bytes: Seq<u8>) -> Seq<char>;

/// The characters a domain-name field with the given raw bytes decodes to:
/// valid UTF-8 decodes exactly, anything else goes through lossy
/// substitution.
pub open spec fn spec_domain_chars(bytes: Seq<u8>) -> Seq<char> {
    if valid_utf8(bytes) {
        decode_utf8(bytes)
    } else {
        domain_lossy_chars(bytes)
    }
}

/// Relies on `String::from_utf8_lossy` (with the copy-on-write result made
/// owned): the result is a function of the bytes alone, and bytes that are
/// valid UTF-8 pass through unchanged.
#[verifier::external_body]
fn lossy_string(bytes: &[u8]) -> (r: String)
    ensures
        r@ == domain_lossy_chars(bytes@),
        valid_utf8(bytes@) ==> r@ == decode_utf8(bytes@),
{
    String::from_utf8_lossy(bytes).into_owned()
}

impl AddrView {
    /// Validity of an address value: the address bytes have the length of
    /// their family, and a domain name fits the one-byte length prefix.
    pub open spec fn wf(self) -> bool {
        match self {
            AddrView::V4 { ip, .. } => ip.len() == 4,
            AddrView::V6 { ip, .. } => ip.len() == 16,
            AddrView::Domain { name, .. } => encode_utf8(name).len() <= 255,
        }
    }

    /// The address-type tag under which this address is encoded.
    pub open spec fn tag(self) -> ATYP {
        match self {
            AddrView::V4 { .. } => ATYP::V4,
            AddrView::V6 { .. } => ATYP::V6,
            AddrView::Domain { .. } => ATYP::DomainName,
        }
    }

    /// The wire encoding of this address field: the raw address bytes (for a
    /// domain, a one-byte length prefix and the UTF-8 bytes of the name)
    /// followed by the big-endian port. The tag byte is not part of this
    /// field; it stands earlier in the containing message.
    pub open spec fn bytes(self) -> Seq<u8> {
        match self {
            AddrView::V4 { ip, port } => ip + spec_be16_bytes(port),
            AddrView::V6 { ip, port } => ip + spec_be16_bytes(port),
            AddrView::Domain { name, port } => seq![encode_utf8(name).len() as u8]
                + encode_utf8(name) + spec_be16_bytes(port),
        }
    }
}

/// Decodes an address field of the given type from the start of `b`: the
/// address value and the number of bytes it occupies. `None` exactly when
/// `b` is shorter than the type (and, for a domain, its length prefix)
/// requires. Bytes past the field are ignored.
pub open spec fn spec_decode_addr(b: Seq<u8>, atyp: ATYP) -> Option<(AddrView, int)> {
    match atyp {
        ATYP::V4 => if b.len() >= 6 {
            Some(
                (
                    AddrView::V4 { ip: b.subrange(0, 4), port: spec_be16(b[4], b[5]) },
                    6int,
                ),
            )
        } else {
            None
        },
        ATYP::V6 => if b.len() >= 18 {
            Some(
                (
                    AddrView::V6 { ip: b.subrange(0, 16), port: spec_be16(b[16], b[17]) },
                    18int,
                ),
            )
        } else {
            None
        },
        ATYP::DomainName => if b.len() >= 1 && b.len() >= 3 + b[0] {
            let n = b[0] as int;
            Some(
                (
                    AddrView::Domain {
                        name: spec_domain_chars(b.subrange(1, 1 + n)),
                        port: spec_be16(b[1 + n], b[2 + n]),
                    },
                    3 + n,
                ),
            )
        } else {
            None
        },
    }
}

/// Reads a big-endian 16-bit value from two bytes.
fn be16(hi: u8, lo: u8) -> (p: u16)
    ensures
        p == spec_be16(hi, lo),
{
    (hi as u16) * 256 + (lo as u16)
}

/// Appends the two big-endian bytes of a 16-bit value.
fn push_be16(out: &mut Vec<u8>, p: u16)
    ensures
        final(out)@ == old(out)@ + spec_be16_bytes(p),
{
    out.push((p / 256) as u8);
    out.push((p % 256) as u8);
    proof {
        assert(out@ =~= old(out)@ + spec_be16_bytes(p));
    }
}

impl AddrPort {
    /// Decodes an address field of the given type from the start of `buf`,
    /// returning the address and the number of bytes consumed. Fails (with
    /// `None`) exactly when the buffer is shorter than the address type
    /// requires; bytes past the field are ignored.
    pub fn decode(buf: &[u8], atyp: ATYP) -> (r: Option<(AddrPort, usize)>)
        ensures
            match r {
                Some((a, n)) => spec_decode_addr(buf@, atyp) == Some((a@, n as int)),
                None => spec_decode_addr(buf@, atyp) is None,
            },
    {
        match atyp {
            ATYP::V4 => {
                if buf.len() < 6 {
                    return None;
                }
                let ip: [u8; 4] = [buf[0], buf[1], buf[2], buf[3]];
                let port = be16(buf[4], buf[5]);
                proof {
                    assert(ip@ =~= buf@.subrange(0, 4));
                }
                Some((AddrPort::V4(ip, port), 6))
            },
            ATYP::V6 => {
                if buf.len() < 18 {
                    return None;
                }
                let ip: [u8; 16] = [
                    buf[0],
                    buf[1],
                    buf[2],
                    buf[3],
                    buf[4],
                    buf[5],
                    buf[6],
                    buf[7],
                    buf[8],
                    buf[9],
                    buf[10],
                    buf[11],
                    buf[12],
                    buf[13],
                    buf[14],
                    buf[15],
                ];
                let port = be16(buf[16], buf[17]);
                proof {
                    assert(ip@ =~= buf@.subrange(0, 16));
                }
                Some((AddrPort::V6(ip, port), 18))
            },
            ATYP::DomainName => {
                if buf.len() < 1 {
                    return None;
                }
                let len = buf[0] as usize;
                if buf.len() < 3 + len {
                    return None;
                }
                let name_bytes = slice_subrange(buf, 1, 1 + len);
                let name = lossy_string(name_bytes);
                let port = be16(buf[1 + len], buf[2 + len]);
                Some((AddrPort::Domain(name, port), 3 + len))
            },
        }
    }

    /// Encodes this address into its wire form: address bytes (for a domain,
    /// the length prefix and name bytes), then the big-endian port.
    pub fn encode(&self) -> (r: Vec<u8>)
        requires
            self@.wf(),
        ensures
            r@ == self@.bytes(),
    {
        let mut out: Vec<u8> = Vec::new();
        match self {
            AddrPort::V4(ip, port) => {
                out.extend_from_slice(ip.as_slice());
                push_be16(&mut out, *port);
            },
            AddrPort::V6(ip, port) => {
                out.extend_from_slice(ip.as_slice());
                push_be16(&mut out, *port);
            },
            AddrPort::Domain(name, port) => {
                let name_bytes = name.as_str().as_bytes();
                out.push(name_bytes.len() as u8);
                out.extend_from_slice(name_bytes);
                push_be16(&mut out, *port);
            },
        }
        proof {
            assert(out@ =~= self@.bytes());
        }
        out
    }
}

/// Parsing utilities for the fixed-size IP address forms.
pub struct Parse;

impl Parse {
    /// Parses an IPv4 (`atyp` `0x01`) or IPv6 (`atyp` `0x04`) address and
    /// port from the start of a byte slice, returning the address and the
    /// number of bytes consumed. Returns `None` when the buffer is too short
    /// or for any other `atyp` value; domain names are handled by
    /// [`AddrPort::decode`].
    pub fn parse_ip_port(buf: &[u8], atyp: u8) -> (r: Option<(AddrPort, usize)>)
        ensures
            atyp == 0x01 || atyp == 0x04 ==> (match r {
                Some((a, n)) => spec_decode_addr(buf@, ATYP::spec_of_u8(atyp)) == Some(
                    (a@, n as int),
                ),
                None => spec_decode_addr(buf@, ATYP::spec_of_u8(atyp)) is None,
            }),
            !(atyp == 0x01 || atyp == 0x04) ==> r is None,
    {
        if atyp == 0x01 {
            AddrPort::decode(buf, ATYP::V4)
        } else if atyp == 0x04 {
            AddrPort::decode(buf, ATYP::V6)
        } else {
            None
        }
    }
}

/// The two big-endian bytes of a value read from two big-endian bytes are
/// the bytes themselves.
proof fn lemma_be16_bytes_round_trip(hi: u8, lo: u8)
    ensures
        spec_be16_bytes(spec_be16(hi, lo)) =~= seq![hi, lo],
{
    assert((hi * 256 + lo) / 256 == hi && (hi * 256 + lo) % 256 == lo) by (nonlinear_arith);
}

/// The value read from the two big-endian bytes of a value is the value
/// itself.
proof fn lemma_be16_round_trip(p: u16)
    ensures
        spec_be16((p / 256) as u8, (p % 256) as u8) == p,
{
    assert((p / 256) * 256 + p % 256 == p) by (nonlinear_arith);
}

/// Law: value-level round trip. Encoding any well-formed address and
/// decoding the result under the address's own tag yields the address back,
/// consuming the whole encoding.
pub proof fn lemma_addr_round_trip(a: AddrView)
    requires
        a.wf(),
    ensures
        spec_decode_addr(a.bytes(), a.tag()) == Some((a, a.bytes().len() as int)),
{
    match a {
        AddrView::V4 { ip, port } => {
            let b = a.bytes();
            lemma_be16_round_trip(port);
            assert(b.subrange(0, 4) =~= ip);
            assert(spec_decode_addr(b, ATYP::V4) matches Some(p) && p.0 =~= a && p.1 == 6);
        },
        AddrView::V6 { ip, port } => {
            let b = a.bytes();
            lemma_be16_round_trip(port);
            assert(b.subrange(0, 16) =~= ip);
            assert(spec_decode_addr(b, ATYP::V6) matches Some(p) && p.0 =~= a && p.1 == 18);
        },
        AddrView::Domain { name, port } => {
            let b = a.bytes();
            let enc = encode_utf8(name);
            encode_utf8_valid_utf8(name);
            encode_utf8_decode_utf8(name);
            lemma_be16_round_trip(port);
            assert(b.len() == 3 + enc.len());
            assert(b.subrange(1, 1 + enc.len() as int) =~= enc);
            assert(spec_domain_chars(enc) == name);
            assert(spec_decode_addr(b, ATYP::DomainName) matches Some(p) && p.0 =~= a && p.1 == 3
                + enc.len());
        },
    }
}

/// Law: byte-level round trip. When an address field decodes and occupies
/// the whole buffer, re-encoding the decoded address reproduces the buffer
/// byte for byte, and the decoded address is well formed. For a domain the
/// name bytes must be valid UTF-8: ill-formed names go through lossy
/// substitution, which may change them.
pub proof fn lemma_addr_reencode(b: Seq<u8>, atyp: ATYP)
    requires
        spec_decode_addr(b, atyp) matches Some((a, n)) && n == b.len(),
        atyp is DomainName ==> valid_utf8(b.subrange(1, 1 + b[0])),
    ensures
        spec_decode_addr(b, atyp) matches Some((a, n)) && a.wf() && a.bytes() == b,
{
    let (a, n) = spec_decode_addr(b, atyp)->Some_0;
    match atyp {
        ATYP::V4 => {
            lemma_be16_bytes_round_trip(b[4], b[5]);
            assert(a.bytes() =~= b);
        },
        ATYP::V6 => {
            lemma_be16_bytes_round_trip(b[16], b[17]);
            assert(a.bytes() =~= b);
        },
        ATYP::DomainName => {
            let len = b[0] as int;
            let sub = b.subrange(1, 1 + len);
            decode_utf8_encode_utf8(sub);
            assert(encode_utf8(a->name) == sub);
            lemma_be16_bytes_round_trip(b[1 + len], b[2 + len]);
            assert(a.bytes() =~= b);
        },
    }
}

} // verus!
