//! The SOCKS5 wire codec: encoding of requests and of the UDP request
//! header, and decoding of server replies and of encapsulated datagrams.
//!
//! Every frame is specified by a spec function over byte sequences, the
//! executable encoders and decoders are proved against those functions, and
//! the round-trip lemmas at the end of the module tie encoding and decoding
//! together.

use vstd::prelude::*;

use crate::addr::{AddrView, TargetAddr};
use crate::error::Socks5Error;
use crate::VERSION;

verus! {

/// The SOCKS5 command of a request.
#[derive(Clone, Copy, Debug, PartialEq, Eq, Structural)]
pub enum RequestType {
    Connect,
    Bind,
    UdpAssociate,
}

impl RequestType {
    /// The command byte on the wire.
    pub open spec fn spec_code(self) -> u8 {
        match self {
            RequestType::Connect => 0x01,
            RequestType::Bind => 0x02,
            RequestType::UdpAssociate => 0x03,
        }
    }

    pub fn code(self) -> (c: u8)
        ensures
            c == self.spec_code(),
    {
        match self {
            RequestType::Connect => 0x01,
            RequestType::Bind => 0x02,
            RequestType::UdpAssociate => 0x03,
        }
    }
}

// ----------------------------------------------------------------------------
// Big-endian ports
// ----------------------------------------------------------------------------

/// The high byte of a big-endian port.
pub open spec fn port_hi(port: u16) -> u8 {
    (port / 256) as u8
}

/// The low byte of a big-endian port.
pub open spec fn port_lo(port: u16) -> u8 {
    (port % 256) as u8
}

/// A port as its two big-endian bytes.
pub open spec fn port_bytes(port: u16) -> Seq<u8> {
    seq![port_hi(port), port_lo(port)]
}

/// The port two big-endian bytes denote.
pub open spec fn be16(hi: u8, lo: u8) -> u16 {
    (256 * (hi as int) + (lo as int)) as u16
}

// ----------------------------------------------------------------------------
// Frame shapes
// ----------------------------------------------------------------------------

/// The address type byte of an address.
pub open spec fn atyp_byte(a: AddrView) -> u8 {
    match a {
        AddrView::Ip4 { .. } => 0x01,
        AddrView::Ip6 { .. } => 0x04,
        AddrView::Domain { .. } => 0x03,
    }
}

/// The number of address bytes inside an encoding: 4 for IPv4, 16 for IPv6,
/// and 1 + N for a domain of N name bytes (the length byte counts).
pub open spec fn addr_len(a: AddrView) -> int {
    match a {
        AddrView::Ip4 { .. } => 4,
        AddrView::Ip6 { .. } => 16,
        AddrView::Domain { name, .. } => 1 + name.len() as int,
    }
}

/// ATYP, address bytes, and big-endian port: the variable tail shared by
/// requests, replies, and the UDP request header.
pub open spec fn encoded_addr(a: AddrView) -> Seq<u8> {
    match a {
        AddrView::Ip4 { octets, port } => seq![0x01u8] + octets + port_bytes(port),
        AddrView::Ip6 { octets, port } => seq![0x04u8] + octets + port_bytes(port),
        AddrView::Domain { name, port } => seq![0x03u8, name.len() as u8] + name + port_bytes(
            port,
        ),
    }
}

/// A whole request frame: version, command, reserved zero, then the target.
pub open spec fn spec_request(command: RequestType, a: AddrView) -> Seq<u8> {
    seq![VERSION, command.spec_code(), 0x00u8] + encoded_addr(a)
}

/// The header prepended to every outgoing UDP datagram: two reserved zero
/// bytes, a zero fragment number, then the target address.
pub open spec fn spec_udp_header(a: AddrView) -> Seq<u8> {
    seq![0x00u8, 0x00u8, 0x00u8] + encoded_addr(a)
}

// ----------------------------------------------------------------------------
// Decoding, as spec functions
// ----------------------------------------------------------------------------

/// The error a nonzero reply code denotes.
pub open spec fn spec_rep_error(rep: u8) -> Socks5Error {
    if rep == 0x01 {
        Socks5Error::GeneralSocksServerFailure
    } else if rep == 0x02 {
        Socks5Error::ConnectionNotAllowed
    } else if rep == 0x03 {
        Socks5Error::NetworkUnreachable
    } else if rep == 0x04 {
        Socks5Error::HostUnreachable
    } else if rep == 0x05 {
        Socks5Error::ConnectionRefused
    } else if rep == 0x06 {
        Socks5Error::TtlExpired
    } else if rep == 0x07 {
        Socks5Error::CommandNotSupported
    } else if rep == 0x08 {
        Socks5Error::AddressTypeNotSupported
    } else {
        Socks5Error::Unassigned
    }
}

/// Decode ATYP + address + port starting at index `i` of `s`.  Returns the
/// address and the index just past its port bytes.  A frame that ends before
/// the element it should carry decodes to `Io`, the error a truncated read
/// surfaces as.
pub open spec fn spec_decode_addr(s: Seq<u8>, i: int) -> Result<(AddrView, int), Socks5Error> {
    if s.len() < i + 1 {
        Err(Socks5Error::Io)
    } else if s[i] == 0x01 {
        if s.len() < i + 7 {
            Err(Socks5Error::Io)
        } else {
            Ok(
                (
                    AddrView::Ip4 { octets: s.subrange(i + 1, i + 5), port: be16(s[i + 5], s[i + 6]) },
                    i + 7,
                ),
            )
        }
    } else if s[i] == 0x03 {
        if s.len() < i + 2 {
            Err(Socks5Error::Io)
        } else {
            let n = s[i + 1] as int;
            if s.len() < i + 4 + n {
                Err(Socks5Error::Io)
            } else {
                Ok(
                    (
                        AddrView::Domain {
                            name: s.subrange(i + 2, i + 2 + n),
                            port: be16(s[i + 2 + n], s[i + 3 + n]),
                        },
                        i + 4 + n,
                    ),
                )
            }
        }
    } else if s[i] == 0x04 {
        if s.len() < i + 19 {
            Err(Socks5Error::Io)
        } else {
            Ok(
                (
                    AddrView::Ip6 {
                        octets: s.subrange(i + 1, i + 17),
                        port: be16(s[i + 17], s[i + 18]),
                    },
                    i + 19,
                ),
            )
        }
    } else {
        Err(Socks5Error::InvalidAddressType)
    }
}

/// Decode a whole reply frame: version, reply code, reserved byte, then the
/// bound address.  Returns that address and the number of bytes the frame
/// occupies, or the error the frame denotes.
pub open spec fn spec_decode_reply(s: Seq<u8>) -> Result<(AddrView, int), Socks5Error> {
    if s.len() < 4 {
        Err(Socks5Error::Io)
    } else if s[0] != VERSION {
        Err(Socks5Error::InvalidResponseVersion { expected: VERSION, actual: s[0] })
    } else if s[1] != 0x00 {
        Err(spec_rep_error(s[1]))
    } else if s[2] != 0x00 {
        Err(Socks5Error::InvalidReservedByte { expected: 0x00, actual: s[2] })
    } else {
        spec_decode_addr(s, 3)
    }
}

/// Decode an encapsulated UDP datagram: three zero bytes (reserved and
/// fragment number — fragmentation is not supported), the enclosed address,
/// then the payload, which runs to the end of the datagram.
pub open spec fn spec_decode_udp(s: Seq<u8>) -> Result<(AddrView, Seq<u8>), Socks5Error> {
    if s.len() < 3 {
        Err(Socks5Error::Io)
    } else if s[0] != 0x00 {
        Err(Socks5Error::InvalidReservedByte { expected: 0x00, actual: s[0] })
    } else if s[1] != 0x00 {
        Err(Socks5Error::InvalidReservedByte { expected: 0x00, actual: s[1] })
    } else if s[2] != 0x00 {
        Err(Socks5Error::InvalidReservedByte { expected: 0x00, actual: s[2] })
    } else {
        match spec_decode_addr(s, 3) {
            Ok(p) => Ok((p.0, s.subrange(p.1, s.len() as int))),
            Err(e) => Err(e),
        }
    }
}

// ----------------------------------------------------------------------------
// Executable encoders
// ----------------------------------------------------------------------------

/// Append all of `bytes` to `buf`.
fn push_bytes(buf: &mut Vec<u8>, bytes: &Vec<u8>)
    ensures
        final(buf)@ == old(buf)@ + bytes@,
{
    proof {
        assert(old(buf)@ + bytes@.subrange(0, 0) =~= old(buf)@);
    }
    let mut i: usize = 0;
    while i < bytes.len()
        invariant
            i <= bytes@.len(),
            buf@ == old(buf)@ + bytes@.subrange(0, i as int),
        decreases bytes@.len() - i,
    {
        buf.push(bytes[i]);
        i = i + 1;
        proof {
            assert(buf@ =~= old(buf)@ + bytes@.subrange(0, i as int));
        }
    }
    proof {
        assert(bytes@.subrange(0, bytes@.len() as int) =~= bytes@);
    }
}

/// Append a port in big-endian order.
fn push_port(buf: &mut Vec<u8>, port: u16)
    ensures
        final(buf)@ == old(buf)@ + port_bytes(port),
{
    buf.push((port / 256) as u8);
    buf.push((port % 256) as u8);
    proof {
        assert(buf@ =~= old(buf)@ + port_bytes(port));
    }
}

/// Append ATYP, address bytes, and big-endian port, or reject a domain name
/// the one-byte length field cannot carry, leaving `buf` untouched.
fn push_addr(buf: &mut Vec<u8>, addr: &TargetAddr) -> (r: Result<(), Socks5Error>)
    requires
        addr@.wf(),
    ensures
        addr@.encodable() ==> (r is Ok && final(buf)@ == old(buf)@ + encoded_addr(addr@)),
        !addr@.encodable() ==> (r == Err::<(), Socks5Error>(Socks5Error::DomainTooLong)
            && final(buf)@ == old(buf)@),
{
    match addr {
        TargetAddr::Ip4 { octets, port } => {
            buf.push(0x01);
            push_bytes(buf, octets);
            push_port(buf, *port);
            proof {
                assert(buf@ =~= old(buf)@ + encoded_addr(addr@));
            }
            Ok(())
        }
        TargetAddr::Ip6 { octets, port } => {
            buf.push(0x04);
            push_bytes(buf, octets);
            push_port(buf, *port);
            proof {
                assert(buf@ =~= old(buf)@ + encoded_addr(addr@));
            }
            Ok(())
        }
        TargetAddr::Domain { name, port } => {
            if name.len() > 255 {
                return Err(Socks5Error::DomainTooLong);
            }
            buf.push(0x03);
            buf.push(name.len() as u8);
            push_bytes(buf, name);
            push_port(buf, *port);
            proof {
                assert(buf@ =~= old(buf)@ + encoded_addr(addr@));
            }
            Ok(())
        }
    }
}

/// Encode a request frame for `command` aimed at `target`.
pub fn encode_request(command: RequestType, target: &TargetAddr) -> (r: Result<
    Vec<u8>,
    Socks5Error,
>)
    requires
        target@.wf(),
    ensures
        target@.encodable() ==> (r matches Ok(v) && v@ == spec_request(command, target@)),
        !target@.encodable() ==> r == Err::<Vec<u8>, Socks5Error>(Socks5Error::DomainTooLong),
{
    let mut buf: Vec<u8> = Vec::new();
    buf.push(VERSION);
    buf.push(command.code());
    buf.push(0x00);
    proof {
        assert(buf@ =~= Seq::<u8>::empty() + seq![VERSION, command.spec_code(), 0x00u8]);
    }
    match push_addr(&mut buf, target) {
        Ok(_) => {
            proof {
                if target@.encodable() {
                    assert(buf@ =~= spec_request(command, target@));
                }
            }
            Ok(buf)
        }
        Err(e) => Err(e),
    }
}

/// Build the datagram actually sent to the relay: the UDP request header
/// for `dst`, then the payload.
pub fn pack_datagram(dst: &TargetAddr, data: &Vec<u8>) -> (r: Result<Vec<u8>, Socks5Error>)
    requires
        dst@.wf(),
    ensures
        dst@.encodable() ==> (r matches Ok(v) && v@ == spec_udp_header(dst@) + data@ && v@.len()
            >= 4 && v@[0] == 0x00 && v@[1] == 0x00 && v@[2] == 0x00 && (v@[3] == 0x01 || v@[3]
            == 0x03 || v@[3] == 0x04)),
        !dst@.encodable() ==> r == Err::<Vec<u8>, Socks5Error>(Socks5Error::DomainTooLong),
{
    let mut buf: Vec<u8> = Vec::new();
    buf.push(0x00);
    buf.push(0x00);
    buf.push(0x00);
    proof {
        assert(buf@ =~= Seq::<u8>::empty() + seq![0x00u8, 0x00u8, 0x00u8]);
    }
    match push_addr(&mut buf, dst) {
        Ok(_) => {
            push_bytes(&mut buf, data);
            proof {
                if dst@.encodable() {
                    assert(buf@ =~= spec_udp_header(dst@) + data@);
                    assert(encoded_addr(dst@)[0] == atyp_byte(dst@));
                    assert(buf@[3] == atyp_byte(dst@));
                }
            }
            Ok(buf)
        }
        Err(e) => Err(e),
    }
}

// ----------------------------------------------------------------------------
// Executable decoders
// ----------------------------------------------------------------------------

/// Copy `src[from..to]` into a fresh vector.
fn copy_range(src: &Vec<u8>, from: usize, to: usize) -> (r: Vec<u8>)
    requires
        from <= to,
        to <= src@.len(),
    ensures
        r@ == src@.subrange(from as int, to as int),
{
    let mut out: Vec<u8> = Vec::new();
    proof {
        assert(out@ =~= src@.subrange(from as int, from as int));
    }
    let mut i: usize = from;
    while i < to
        invariant
            from <= i <= to,
            to <= src@.len(),
            out@ == src@.subrange(from as int, i as int),
        decreases to - i,
    {
        out.push(src[i]);
        i = i + 1;
        proof {
            assert(out@ =~= src@.subrange(from as int, i as int));
        }
    }
    out
}

/// Read a big-endian port.
fn read_port(frame: &Vec<u8>, at: usize) -> (p: u16)
    requires
        at + 2 <= frame@.len(),
        at < usize::MAX,
    ensures
        p == be16(frame@[at as int], frame@[at as int + 1]),
{
    let hi = frame[at];
    let lo = frame[at + 1];
    (hi as u16) * 256 + (lo as u16)
}

/// Decode ATYP + address + port at offset `from` of `frame`.
fn decode_addr_at(frame: &Vec<u8>, from: usize) -> (r: Result<(TargetAddr, usize), Socks5Error>)
    requires
        from <= frame@.len(),
        from + 300 <= usize::MAX,
    ensures
        match spec_decode_addr(frame@, from as int) {
            Ok(p) => (r matches Ok(q) && q.0@ == p.0 && q.1 as int == p.1),
            Err(e) => r == Err::<(TargetAddr, usize), Socks5Error>(e),
        },
{
    let rem = frame.len() - from;
    if rem < 1 {
        return Err(Socks5Error::Io);
    }
    let atyp = frame[from];
    if atyp == 0x01 {
        if rem < 7 {
            return Err(Socks5Error::Io);
        }
        let octets = copy_range(frame, from + 1, from + 5);
        let port = read_port(frame, from + 5);
        Ok((TargetAddr::Ip4 { octets, port }, from + 7))
    } else if atyp == 0x03 {
        if rem < 2 {
            return Err(Socks5Error::Io);
        }
        let n = frame[from + 1] as usize;
        if rem < 4 + n {
            return Err(Socks5Error::Io);
        }
        let name = copy_range(frame, from + 2, from + 2 + n);
        let port = read_port(frame, from + 2 + n);
        Ok((TargetAddr::Domain { name, port }, from + 4 + n))
    } else if atyp == 0x04 {
        if rem < 19 {
            return Err(Socks5Error::Io);
        }
        let octets = copy_range(frame, from + 1, from + 17);
        let port = read_port(frame, from + 17);
        Ok((TargetAddr::Ip6 { octets, port }, from + 19))
    } else {
        Err(Socks5Error::InvalidAddressType)
    }
}

/// The error a nonzero reply code denotes.
pub fn rep_error(rep: u8) -> (e: Socks5Error)
    ensures
        e == spec_rep_error(rep),
{
    if rep == 0x01 {
        Socks5Error::GeneralSocksServerFailure
    } else if rep == 0x02 {
        Socks5Error::ConnectionNotAllowed
    } else if rep == 0x03 {
        Socks5Error::NetworkUnreachable
    } else if rep == 0x04 {
        Socks5Error::HostUnreachable
    } else if rep == 0x05 {
        Socks5Error::ConnectionRefused
    } else if rep == 0x06 {
        Socks5Error::TtlExpired
    } else if rep == 0x07 {
        Socks5Error::CommandNotSupported
    } else if rep == 0x08 {
        Socks5Error::AddressTypeNotSupported
    } else {
        Socks5Error::Unassigned
    }
}

/// Decode a reply frame into the bound address it carries and the number of
/// bytes the frame occupies.
pub fn decode_reply(frame: &Vec<u8>) -> (r: Result<(TargetAddr, usize), Socks5Error>)
    ensures
        match spec_decode_reply(frame@) {
            Ok(p) => (r matches Ok(q) && q.0@ == p.0 && q.1 as int == p.1),
            Err(e) => r == Err::<(TargetAddr, usize), Socks5Error>(e),
        },
{
    if frame.len() < 4 {
        return Err(Socks5Error::Io);
    }
    let ver = frame[0];
    if ver != VERSION {
        return Err(Socks5Error::InvalidResponseVersion { expected: VERSION, actual: ver });
    }
    let rep = frame[1];
    if rep != 0x00 {
        return Err(rep_error(rep));
    }
    let rsv = frame[2];
    if rsv != 0x00 {
        return Err(Socks5Error::InvalidReservedByte { expected: 0x00, actual: rsv });
    }
    decode_addr_at(frame, 3)
}

/// Strip the UDP request header from a datagram received from the relay,
/// yielding the enclosed address and the payload.
pub fn unpack_datagram(dgram: &Vec<u8>) -> (r: Result<(TargetAddr, Vec<u8>), Socks5Error>)
    ensures
        match spec_decode_udp(dgram@) {
            Ok(p) => (r matches Ok(q) && q.0@ == p.0 && q.1@ == p.1),
            Err(e) => r == Err::<(TargetAddr, Vec<u8>), Socks5Error>(e),
        },
{
    if dgram.len() < 3 {
        return Err(Socks5Error::Io);
    }
    if dgram[0] != 0x00 {
        return Err(Socks5Error::InvalidReservedByte { expected: 0x00, actual: dgram[0] });
    }
    if dgram[1] != 0x00 {
        return Err(Socks5Error::InvalidReservedByte { expected: 0x00, actual: dgram[1] });
    }
    if dgram[2] != 0x00 {
        return Err(Socks5Error::InvalidReservedByte { expected: 0x00, actual: dgram[2] });
    }
    match decode_addr_at(dgram, 3) {
        Ok((addr, end)) => {
            let payload = copy_range(dgram, end, dgram.len());
            Ok((addr, payload))
        }
        Err(e) => Err(e),
    }
}

// ----------------------------------------------------------------------------
// Reply framing
// ----------------------------------------------------------------------------

/// How many further bytes a partially read reply frame needs before it can
/// be decoded: the rest of the 4-byte header first, then the address bytes
/// its ATYP announces (for a domain, the length byte first).  Zero means
/// the bytes read so far already decode to a result — possibly an error,
/// as for an unknown address type — but never for want of bytes.
pub open spec fn spec_reply_remaining(s: Seq<u8>) -> int {
    if s.len() < 4 {
        4 - s.len()
    } else if s[3] == 0x01 {
        if s.len() < 10 {
            10 - s.len()
        } else {
            0
        }
    } else if s[3] == 0x04 {
        if s.len() < 22 {
            22 - s.len()
        } else {
            0
        }
    } else if s[3] == 0x03 {
        if s.len() < 5 {
            5 - s.len()
        } else {
            let n = s[4] as int;
            if s.len() < 7 + n {
                7 + n - s.len()
            } else {
                0
            }
        }
    } else {
        0
    }
}

/// See [`spec_reply_remaining`]: a transport driver reads this many more
/// bytes, appends them, and asks again; once zero is returned the frame is
/// ready for [`decode_reply`], which then never reports a truncated frame.
pub fn reply_remaining(frame: &Vec<u8>) -> (r: usize)
    ensures
        r as int == spec_reply_remaining(frame@),
        r == 0 ==> spec_decode_reply(frame@) != Err::<(AddrView, int), Socks5Error>(
            Socks5Error::Io,
        ),
{
    let len = frame.len();
    if len < 4 {
        return 4 - len;
    }
    let atyp = frame[3];
    if atyp == 0x01 {
        if len < 10 {
            10 - len
        } else {
            0
        }
    } else if atyp == 0x04 {
        if len < 22 {
            22 - len
        } else {
            0
        }
    } else if atyp == 0x03 {
        if len < 5 {
            5 - len
        } else {
            let n = frame[4] as usize;
            if len < 7 + n {
                7 + n - len
            } else {
                0
            }
        }
    } else {
        0
    }
}

// ----------------------------------------------------------------------------
// Round-trip laws
// ----------------------------------------------------------------------------

/// Law: an encoded address decodes back to itself at the offset where its
/// encoding starts, whatever bytes surround it, and decoding stops exactly
/// at the end of the encoding.
pub proof fn lemma_addr_round_trip(prefix: Seq<u8>, a: AddrView, suffix: Seq<u8>)
    requires
        a.encodable(),
    ensures
        spec_decode_addr(prefix + encoded_addr(a) + suffix, prefix.len() as int) == Ok::<
            (AddrView, int),
            Socks5Error,
        >((a, prefix.len() + encoded_addr(a).len() as int)),
{
    let s = prefix + encoded_addr(a) + suffix;
    let i = prefix.len() as int;
    let enc = encoded_addr(a);
    assert forall|j: int| 0 <= j < enc.len() implies s[i + j] == enc[j] by {}
    match a {
        AddrView::Ip4 { octets, port } => {
            assert(enc.len() == 7);
            assert(s[i] == 0x01);
            assert(s.subrange(i + 1, i + 5) =~= octets);
            assert(s[i + 5] == port_hi(port) && s[i + 6] == port_lo(port));
            assert(be16(port_hi(port), port_lo(port)) == port);
        }
        AddrView::Ip6 { octets, port } => {
            assert(enc.len() == 19);
            assert(s[i] == 0x04);
            assert(s.subrange(i + 1, i + 17) =~= octets);
            assert(s[i + 17] == port_hi(port) && s[i + 18] == port_lo(port));
            assert(be16(port_hi(port), port_lo(port)) == port);
        }
        AddrView::Domain { name, port } => {
            let n = name.len() as int;
            assert(enc.len() == 4 + n);
            assert(s[i] == 0x03);
            assert(s[i + 1] == n as u8);
            assert((n as u8) as int == n);
            assert(s.subrange(i + 2, i + 2 + n) =~= name);
            assert(s[i + 2 + n] == port_hi(port) && s[i + 3 + n] == port_lo(port));
            assert(be16(port_hi(port), port_lo(port)) == port);
        }
    }
}

/// Law: for every encodable address, the reply frame that carries it with a
/// success code decodes to exactly that address, and decoding consumes the
/// whole frame: 4 header bytes, the address bytes, and 2 port bytes.
pub proof fn lemma_reply_round_trip(a: AddrView)
    requires
        a.encodable(),
    ensures
        ({
            let frame = seq![VERSION, 0x00u8, 0x00u8] + encoded_addr(a);
            &&& spec_decode_reply(frame) == Ok::<(AddrView, int), Socks5Error>(
                (a, frame.len() as int),
            )
            &&& frame.len() == 4 + addr_len(a) + 2
        }),
{
    let frame = seq![VERSION, 0x00u8, 0x00u8] + encoded_addr(a);
    lemma_addr_round_trip(seq![VERSION, 0x00u8, 0x00u8], a, Seq::<u8>::empty());
    assert(seq![VERSION, 0x00u8, 0x00u8] + encoded_addr(a) + Seq::<u8>::empty() =~= frame);
    assert(frame[0] == VERSION && frame[1] == 0x00 && frame[2] == 0x00);
    assert(encoded_addr(a).len() == 1 + addr_len(a) + 2);
}

/// Law: wrapping a payload for an encodable address and unwrapping the
/// resulting datagram yields the address and the payload unchanged.
pub proof fn lemma_datagram_round_trip(a: AddrView, payload: Seq<u8>)
    requires
        a.encodable(),
    ensures
        spec_decode_udp(spec_udp_header(a) + payload) == Ok::<(AddrView, Seq<u8>), Socks5Error>(
            (a, payload),
        ),
{
    let s = spec_udp_header(a) + payload;
    lemma_addr_round_trip(seq![0x00u8, 0x00u8, 0x00u8], a, payload);
    assert(seq![0x00u8, 0x00u8, 0x00u8] + encoded_addr(a) + payload =~= s);
    assert(s[0] == 0x00 && s[1] == 0x00 && s[2] == 0x00);
    let end = 3 + encoded_addr(a).len() as int;
    assert(s.subrange(end, s.len() as int) =~= payload);
}

} // verus!
