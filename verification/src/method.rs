//! The authentication-method abstraction.
//!
//! A method is the pluggable part of a session: it owns whatever
//! sub-negotiation follows the greeting and, for UDP operation, the relay
//! endpoint the proxy advertised.  The engine is method-agnostic beyond the
//! code it offers in the greeting, so further methods plug in by
//! implementing this trait.  The transport itself (the proxy byte stream, a
//! datagram socket) lives with the caller that drives the session; a method
//! whose sub-negotiation exchanges bytes is driven the same way and reports
//! its completion through [`Method::handshake`].

use vstd::prelude::*;

use crate::addr::{AddrView, TargetAddr};
use crate::error::Socks5Error;

verus! {

/// The capability set of a SOCKS5 authentication method.
pub trait Method: Sized {
    /// The method code offered in the greeting.
    spec fn spec_code() -> u8;

    /// The relay endpoint registered for UDP operation, if any.
    spec fn relay(&self) -> Option<AddrView>;

    /// The one-byte method code on the wire.
    fn code() -> (c: u8)
        ensures
            c == Self::spec_code(),
    ;

    /// Complete the method's sub-negotiation.  For methods without one this
    /// is a no-op; a failure aborts session setup.
    fn handshake(&mut self) -> (r: Result<(), Socks5Error>)
        ensures
            final(self).relay() == old(self).relay(),
    ;

    /// Install the relay endpoint a UDP ASSOCIATE reply advertised.
    fn register_endpoints(&mut self, dst: TargetAddr) -> (r: Result<(), Socks5Error>)
        ensures
            r is Ok ==> final(self).relay() == Some(dst@),
            r is Err ==> final(self).relay() == old(self).relay(),
    ;

    /// The registered relay endpoint, or the error every UDP operation
    /// returns while none is registered.
    fn relay_endpoint(&self) -> (r: Result<TargetAddr, Socks5Error>)
        ensures
            match self.relay() {
                Some(a) => (r matches Ok(t) && t@ == a),
                None => r == Err::<TargetAddr, Socks5Error>(
                    Socks5Error::DatagramSocketNotRegistered,
                ),
            },
    ;
}

/// The built-in "no authentication required" method (code 0x00).  Its
/// sub-negotiation is empty.
pub struct NoAuthentication {
    endpoints: Option<TargetAddr>,
}

impl NoAuthentication {
    /// A fresh instance with no relay endpoint registered.
    pub fn new() -> (r: Self)
        ensures
            r.relay() is None,
    {
        NoAuthentication { endpoints: None }
    }
}

impl Default for NoAuthentication {
    fn default() -> (r: Self)
        ensures
            r.relay() is None,
    {
        NoAuthentication::new()
    }
}

impl Method for NoAuthentication {
    open spec fn spec_code() -> u8 {
        0x00
    }

    closed spec fn relay(&self) -> Option<AddrView> {
        match self.endpoints {
            Some(a) => Some(a@),
            None => None,
        }
    }

    fn code() -> (c: u8) {
        0x00
    }

    fn handshake(&mut self) -> (r: Result<(), Socks5Error>)
        ensures
            r is Ok,
    {
        Ok(())
    }

    fn register_endpoints(&mut self, dst: TargetAddr) -> (r: Result<(), Socks5Error>)
        ensures
            r is Ok,
    {
        self.endpoints = Some(dst);
        Ok(())
    }

    fn relay_endpoint(&self) -> (r: Result<TargetAddr, Socks5Error>) {
        match &self.endpoints {
            Some(a) => Ok(a.clone()),
            None => Err(Socks5Error::DatagramSocketNotRegistered),
        }
    }
}

} // verus!
