//! The SOCKS client engine: a session state machine over the wire codec.
//!
//! A session performs no I/O.  Each operation either yields the exact bytes
//! the caller must put on the control stream, or consumes the bytes the
//! caller read from it, and the session tracks where in the protocol it
//! stands.  Any protocol violation in a reply moves the session to its
//! terminal failed state.

use vstd::prelude::*;

use crate::addr::{AddrView, TargetAddr};
use crate::codec;
use crate::codec::RequestType;
use crate::error::Socks5Error;
use crate::method::Method;
use crate::VERSION;

verus! {

/// A request: the command and the target address it aims at.
pub struct Request {
    request_type: RequestType,
    target_addr: TargetAddr,
}

impl Request {
    /// The command of the request.
    pub closed spec fn spec_command(&self) -> RequestType {
        self.request_type
    }

    /// The target of the request.
    pub closed spec fn spec_target(&self) -> AddrView {
        self.target_addr@
    }

    pub fn new(request_type: RequestType, target_addr: TargetAddr) -> (r: Self)
        ensures
            r.spec_command() == request_type,
            r.spec_target() == target_addr@,
    {
        Request { request_type, target_addr }
    }

    pub fn command(&self) -> (c: RequestType)
        ensures
            c == self.spec_command(),
    {
        self.request_type
    }

    /// Report whether the target is well shaped (see [`AddrView::wf`]).
    pub fn target_well_formed(&self) -> (b: bool)
        ensures
            b == self.spec_target().wf(),
    {
        self.target_addr.well_formed()
    }

    /// Encode the request frame.
    pub fn encode(&self) -> (r: Result<Vec<u8>, Socks5Error>)
        requires
            self.spec_target().wf(),
        ensures
            self.spec_target().encodable() ==> (r matches Ok(v) && v@ == codec::spec_request(
                self.spec_command(),
                self.spec_target(),
            )),
            !self.spec_target().encodable() ==> r == Err::<Vec<u8>, Socks5Error>(
                Socks5Error::DomainTooLong,
            ),
    {
        codec::encode_request(self.request_type, &self.target_addr)
    }
}

/// Where a session stands.
#[derive(Clone, Copy, Debug, PartialEq, Eq, Structural)]
pub enum SessionState {
    /// Greeting and sub-negotiation are done; a request may be issued.
    Ready,
    /// A request went out; the server's reply is awaited.
    AwaitingReply { command: RequestType },
    /// A CONNECT reply arrived; the stream now carries the tunneled payload.
    Tunneling,
    /// The first BIND reply arrived; the second is awaited on accept.
    Bound,
    /// A UDP ASSOCIATE reply arrived; no datagram relay is registered yet.
    Associated,
    /// Datagrams are flowing through the registered relay.
    Relaying,
    /// A protocol violation was met; the session is unusable.
    Failed,
}

/// A SOCKS5 client session wrapping one authentication method.
pub struct Socks5Client<M> {
    method: M,
    state: SessionState,
}

impl<M: Method> Socks5Client<M> {
    /// Where the session stands.
    pub closed spec fn state(&self) -> SessionState {
        self.state
    }

    /// The relay endpoint the method holds, if registered.
    pub closed spec fn relay(&self) -> Option<AddrView> {
        self.method.relay()
    }

    pub fn current_state(&self) -> (s: SessionState)
        ensures
            s == self.state(),
    {
        self.state
    }

    /// The 3-byte greeting that opens every session: version, the number of
    /// offered methods (always one), and the method's code.
    pub fn greeting() -> (g: Vec<u8>)
        ensures
            g@ == seq![VERSION, 0x01u8, M::spec_code()],
    {
        let mut g: Vec<u8> = Vec::new();
        g.push(VERSION);
        g.push(0x01);
        g.push(M::code());
        proof {
            assert(g@ =~= seq![VERSION, 0x01u8, M::spec_code()]);
        }
        g
    }

    /// Interpret the server's 2-byte greeting reply and, when it selects a
    /// method, run the method's sub-negotiation, yielding a session that is
    /// ready to issue a request.
    ///
    /// Beyond rejecting 0xFF, the selected method is not compared with the
    /// offered code; a stricter client could also reject a mismatch.
    pub fn connect(method: M, reply_version: u8, reply_method: u8) -> (r: Result<
        Self,
        Socks5Error,
    >)
        ensures
            reply_version != VERSION ==> r == Err::<Self, Socks5Error>(
                Socks5Error::InvalidResponseVersion { expected: VERSION, actual: reply_version },
            ),
            (reply_version == VERSION && reply_method == 0xff) ==> r == Err::<Self, Socks5Error>(
                Socks5Error::NoAcceptableMethod,
            ),
            r matches Ok(c) ==> (reply_version == VERSION && reply_method != 0xff && c.state()
                is Ready && c.relay() == method.relay()),
    {
        if reply_version != VERSION {
            return Err(
                Socks5Error::InvalidResponseVersion { expected: VERSION, actual: reply_version },
            );
        }
        if reply_method == 0xff {
            return Err(Socks5Error::NoAcceptableMethod);
        }
        let mut method = method;
        match method.handshake() {
            Ok(_) => Ok(Socks5Client { method, state: SessionState::Ready }),
            Err(e) => Err(e),
        }
    }

    /// Encode a request and move to awaiting its reply.  A domain target
    /// longer than 255 bytes is rejected before anything is emitted, and
    /// the session stays ready.
    pub fn send_request(&mut self, request: Request) -> (r: Result<Vec<u8>, Socks5Error>)
        requires
            old(self).state() is Ready,
            request.spec_target().wf(),
        ensures
            final(self).relay() == old(self).relay(),
            request.spec_target().encodable() ==> (r matches Ok(v) && v@ == codec::spec_request(
                request.spec_command(),
                request.spec_target(),
            ) && v@.len() >= 4 && v@[0] == VERSION && final(self).state()
                == (SessionState::AwaitingReply { command: request.spec_command() })),
            !request.spec_target().encodable() ==> (r == Err::<Vec<u8>, Socks5Error>(
                Socks5Error::DomainTooLong,
            ) && final(self).state() == old(self).state()),
    {
        let command = request.command();
        match request.encode() {
            Ok(v) => {
                self.state = SessionState::AwaitingReply { command };
                proof {
                    if request.spec_target().encodable() {
                        assert(codec::encoded_addr(request.spec_target()).len() >= 4);
                        assert(v@[0] == VERSION);
                    }
                }
                Ok(v)
            }
            Err(e) => Err(e),
        }
    }

    /// Interpret one reply frame.  On success the session advances
    /// according to the command it was awaiting (or, for the second BIND
    /// reply, to tunneling); on any protocol violation it fails terminally
    /// and returns the violation.
    pub fn recv_reply(&mut self, frame: &Vec<u8>) -> (r: Result<TargetAddr, Socks5Error>)
        requires
            old(self).state() matches SessionState::AwaitingReply { .. } || old(self).state()
                is Bound,
        ensures
            final(self).relay() == old(self).relay(),
            match codec::spec_decode_reply(frame@) {
                Ok(p) => (r matches Ok(a) && a@ == p.0 && final(self).state() == (match old(
                    self,
                ).state() {
                    SessionState::AwaitingReply {
                        command: RequestType::Connect,
                    } => SessionState::Tunneling,
                    SessionState::AwaitingReply { command: RequestType::Bind } => SessionState::Bound,
                    SessionState::AwaitingReply {
                        command: RequestType::UdpAssociate,
                    } => SessionState::Associated,
                    _ => SessionState::Tunneling,
                })),
                Err(e) => (r == Err::<TargetAddr, Socks5Error>(e) && final(self).state()
                    is Failed),
            },
    {
        match codec::decode_reply(frame) {
            Ok((addr, _consumed)) => {
                let next = match self.state {
                    SessionState::AwaitingReply {
                        command: RequestType::Connect,
                    } => SessionState::Tunneling,
                    SessionState::AwaitingReply { command: RequestType::Bind } => SessionState::Bound,
                    SessionState::AwaitingReply {
                        command: RequestType::UdpAssociate,
                    } => SessionState::Associated,
                    _ => SessionState::Tunneling,
                };
                self.state = next;
                Ok(addr)
            }
            Err(e) => {
                self.state = SessionState::Failed;
                Err(e)
            }
        }
    }

    /// Install the relay endpoint taken from a UDP ASSOCIATE reply; the
    /// session then relays datagrams.
    pub fn register_endpoints(&mut self, dst: TargetAddr) -> (r: Result<(), Socks5Error>)
        requires
            old(self).state() is Associated,
        ensures
            r is Ok ==> (final(self).relay() == Some(dst@) && final(self).state() is Relaying),
            r is Err ==> (final(self).relay() == old(self).relay() && final(self).state() == old(
                self,
            ).state()),
    {
        match self.method.register_endpoints(dst) {
            Ok(_) => {
                self.state = SessionState::Relaying;
                Ok(())
            }
            Err(e) => Err(e),
        }
    }

    /// Wrap `data` in the UDP request header for `target` and name the
    /// relay endpoint the datagram must be sent to.  Packing is attempted
    /// first, so an over-long domain is reported even while no relay is
    /// registered.
    pub fn send_to(&self, data: &Vec<u8>, target: &TargetAddr) -> (r: Result<
        (Vec<u8>, TargetAddr),
        Socks5Error,
    >)
        requires
            target@.wf(),
        ensures
            !target@.encodable() ==> r == Err::<(Vec<u8>, TargetAddr), Socks5Error>(
                Socks5Error::DomainTooLong,
            ),
            target@.encodable() ==> match self.relay() {
                Some(rel) => (r matches Ok(p) && p.0@ == codec::spec_udp_header(target@) + data@
                    && p.1@ == rel),
                None => r == Err::<(Vec<u8>, TargetAddr), Socks5Error>(
                    Socks5Error::DatagramSocketNotRegistered,
                ),
            },
    {
        let packed = match codec::pack_datagram(target, data) {
            Ok(v) => v,
            Err(e) => {
                return Err(e);
            }
        };
        let rel = match self.method.relay_endpoint() {
            Ok(t) => t,
            Err(e) => {
                return Err(e);
            }
        };
        Ok((packed, rel))
    }

    /// Unwrap one datagram received from the relay: the enclosed target
    /// address and the payload.
    pub fn recv_from(&self, dgram: &Vec<u8>) -> (r: Result<
        (TargetAddr, Vec<u8>),
        Socks5Error,
    >)
        ensures
            match self.relay() {
                None => r == Err::<(TargetAddr, Vec<u8>), Socks5Error>(
                    Socks5Error::DatagramSocketNotRegistered,
                ),
                Some(_) => match codec::spec_decode_udp(dgram@) {
                    Ok(p) => (r matches Ok(q) && q.0@ == p.0 && q.1@ == p.1),
                    Err(e) => r == Err::<(TargetAddr, Vec<u8>), Socks5Error>(e),
                },
            },
    {
        match self.method.relay_endpoint() {
            Ok(_) => codec::unpack_datagram(dgram),
            Err(e) => Err(e),
        }
    }
}

} // verus!
