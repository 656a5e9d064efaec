//! The CONNECT front-end: a session tunneled to one peer.
//!
//! After a successful CONNECT reply the control stream carries the payload
//! itself, so the stream type is bookkeeping: it owns the session and
//! records the peer the tunnel leads to.

use vstd::prelude::*;

use crate::addr::{AddrView, TargetAddr};
use crate::client::Socks5Client;
use crate::method::Method;

verus! {

/// A byte stream tunneled through the proxy to `peer_addr`.
pub struct Socks5Stream<M> {
    client: Socks5Client<M>,
    peer_addr: TargetAddr,
}

impl<M: Method> Socks5Stream<M> {
    /// The address of the peer the stream is tunneled to.
    pub closed spec fn spec_peer_addr(&self) -> AddrView {
        self.peer_addr@
    }

    /// Wrap a session that reached the tunneling state, recording the peer
    /// it is tunneled to.
    pub fn new(client: Socks5Client<M>, peer_addr: TargetAddr) -> (r: Self)
        requires
            client.state() is Tunneling,
        ensures
            r.spec_peer_addr() == peer_addr@,
    {
        Socks5Stream { client, peer_addr }
    }

    pub fn peer_addr(&self) -> (a: TargetAddr)
        ensures
            a@ == self.spec_peer_addr(),
    {
        self.peer_addr.clone()
    }
}

} // verus!
