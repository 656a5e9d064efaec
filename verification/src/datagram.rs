//! The UDP ASSOCIATE front-end: a datagram endpoint tunneled through the
//! proxy's relay.
//!
//! The endpoint wraps every outgoing payload in the UDP request header and
//! names the relay it must travel to, and strips the header from every
//! datagram that comes back.  The session underneath holds the control
//! stream association alive.

use vstd::prelude::*;

use crate::addr::{AddrView, TargetAddr};
use crate::client::Socks5Client;
use crate::codec;
use crate::error::Socks5Error;
use crate::method::Method;

verus! {

/// A datagram endpoint relaying through the proxy.
pub struct Socks5Datagram<M> {
    client: Socks5Client<M>,
}

impl<M: Method> Socks5Datagram<M> {
    /// The relay endpoint datagrams travel through.
    pub closed spec fn relay(&self) -> Option<AddrView> {
        self.client.relay()
    }

    /// Wrap a session whose UDP association is set up.
    pub fn new(client: Socks5Client<M>) -> (r: Self)
        requires
            client.state() is Relaying,
        ensures
            r.relay() == client.relay(),
    {
        Socks5Datagram { client }
    }

    /// Wrap `buf` in the UDP request header for `addr` and name the relay
    /// endpoint the datagram must be sent to.
    pub fn send_to(&self, buf: &Vec<u8>, addr: &TargetAddr) -> (r: Result<
        (Vec<u8>, TargetAddr),
        Socks5Error,
    >)
        requires
            addr@.wf(),
        ensures
            !addr@.encodable() ==> r == Err::<(Vec<u8>, TargetAddr), Socks5Error>(
                Socks5Error::DomainTooLong,
            ),
            addr@.encodable() ==> match self.relay() {
                Some(rel) => (r matches Ok(p) && p.0@ == codec::spec_udp_header(addr@) + buf@
                    && p.1@ == rel),
                None => r == Err::<(Vec<u8>, TargetAddr), Socks5Error>(
                    Socks5Error::DatagramSocketNotRegistered,
                ),
            },
    {
        self.client.send_to(buf, addr)
    }

    /// Strip the UDP request header from one received datagram, yielding
    /// the enclosed target address and the payload.
    pub fn recv_from(&self, dgram: &Vec<u8>) -> (r: Result<
        (TargetAddr, Vec<u8>),
        Socks5Error,
    >)
        ensures
            match self.relay() {
                None => r == Err::<(TargetAddr, Vec<u8>), Socks5Error>(
                    Socks5Error::DatagramSocketNotRegistered,
                ),
                Some(_) => match codec::spec_decode_udp(dgram@) {
                    Ok(p) => (r matches Ok(q) && q.0@ == p.0 && q.1@ == p.1),
                    Err(e) => r == Err::<(TargetAddr, Vec<u8>), Socks5Error>(e),
                },
            },
    {
        self.client.recv_from(dgram)
    }
}

} // verus!
