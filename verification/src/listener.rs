//! The BIND front-end: a one-shot acceptor.
//!
//! A listener holds a session that received its first BIND reply — the
//! address the proxy is listening on — and waits for the second reply,
//! which names the inbound peer.

use vstd::prelude::*;

use crate::addr::{AddrView, TargetAddr};
use crate::client::Socks5Client;
use crate::codec;
use crate::error::Socks5Error;
use crate::method::Method;
use crate::stream::Socks5Stream;

verus! {

/// A pending BIND: the proxy listens on `bind_addr` for one inbound
/// connection.
pub struct Socks5Listener<M> {
    client: Socks5Client<M>,
    bind_addr: TargetAddr,
}

impl<M: Method> Socks5Listener<M> {
    /// The session is parked between the two BIND replies.
    pub closed spec fn wf(&self) -> bool {
        self.client.state() is Bound
    }

    /// The address the proxy published.
    pub closed spec fn spec_bind_addr(&self) -> AddrView {
        self.bind_addr@
    }

    /// Wrap a session whose first BIND reply arrived, carrying the address
    /// the proxy is listening on.
    pub fn new(client: Socks5Client<M>, bind_addr: TargetAddr) -> (r: Self)
        requires
            client.state() is Bound,
        ensures
            r.wf(),
            r.spec_bind_addr() == bind_addr@,
    {
        Socks5Listener { client, bind_addr }
    }

    /// The address the proxy is listening on for the inbound peer.
    pub fn bind_addr(&self) -> (a: TargetAddr)
        ensures
            a@ == self.spec_bind_addr(),
    {
        self.bind_addr.clone()
    }

    /// Consume the listener with the second BIND reply.  On success the
    /// result is a stream whose peer is the address the reply carried; on a
    /// protocol violation the violation comes back and the session is lost.
    pub fn accept(self, frame: &Vec<u8>) -> (r: Result<Socks5Stream<M>, Socks5Error>)
        requires
            self.wf(),
        ensures
            match codec::spec_decode_reply(frame@) {
                Ok(p) => (r matches Ok(s) && s.spec_peer_addr() == p.0),
                Err(e) => (r matches Err(e2) && e2 == e),
            },
    {
        let Socks5Listener { mut client, bind_addr: _ } = self;
        match client.recv_reply(frame) {
            Ok(addr) => Ok(Socks5Stream::new(client, addr)),
            Err(e) => Err(e),
        }
    }
}

} // verus!
