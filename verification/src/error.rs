//! The error taxonomy of the SOCKS5 client.

use vstd::prelude::*;

verus! {

/// Everything a SOCKS5 client operation can fail with.
///
/// Protocol-level errors are terminal for their session: once one is
/// returned, the session moves to its failed state and is unusable.
#[derive(Clone, Copy, Debug, PartialEq, Eq, Structural)]
pub enum Socks5Error {
    /// The transport failed, or a frame ended before the protocol element
    /// it should carry was complete (a truncated read).
    Io,
    /// The caller supplied a domain name longer than 255 bytes, which the
    /// one-byte length field of the wire format cannot carry.
    DomainTooLong,
    /// A greeting reply or reply header carried a version byte other than 0x05.
    InvalidResponseVersion { expected: u8, actual: u8 },
    /// The server answered the greeting with 0xFF: it accepts none of the
    /// offered authentication methods.
    NoAcceptableMethod,
    /// Reply code 0x01.
    GeneralSocksServerFailure,
    /// Reply code 0x02.
    ConnectionNotAllowed,
    /// Reply code 0x03.
    NetworkUnreachable,
    /// Reply code 0x04.
    HostUnreachable,
    /// Reply code 0x05.
    ConnectionRefused,
    /// Reply code 0x06.
    TtlExpired,
    /// Reply code 0x07.
    CommandNotSupported,
    /// Reply code 0x08.
    AddressTypeNotSupported,
    /// A reply code outside the range assigned by the protocol.
    Unassigned,
    /// A reply carried a nonzero reserved byte.
    InvalidReservedByte { expected: u8, actual: u8 },
    /// A reply carried an address type outside {0x01, 0x03, 0x04}.
    InvalidAddressType,
    /// A domain name resolved to no numeric endpoint at all.
    InvalidTargetAddress,
    /// A UDP send or receive was attempted before a datagram socket and
    /// relay endpoint were registered.
    DatagramSocketNotRegistered,
}

} // verus!
