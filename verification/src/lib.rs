//! A SOCKS5 (RFC 1928) client protocol engine.
//!
//! The library implements the wire codec and the protocol state machine of a
//! SOCKS5 client: it negotiates an authentication method, issues CONNECT,
//! BIND and UDP ASSOCIATE requests, parses server replies, and wraps and
//! unwraps UDP datagrams in the SOCKS5 request header.  It performs no I/O
//! itself: every operation either produces the exact bytes to put on the
//! wire or consumes the bytes that came off it, so a caller drives it over
//! whatever transport it has.

use vstd::prelude::*;

pub mod addr;
pub mod client;
pub mod codec;
pub mod datagram;
pub mod error;
pub mod listener;
pub mod method;
pub mod stream;

pub use addr::TargetAddr;
pub use client::{Request, SessionState, Socks5Client};
pub use codec::RequestType;
pub use datagram::Socks5Datagram;
pub use error::Socks5Error;
pub use listener::Socks5Listener;
pub use method::{Method, NoAuthentication};
pub use stream::Socks5Stream;

verus! {

/// The SOCKS protocol version byte carried by every message.
pub const VERSION: u8 = 0x05;

} // verus!
