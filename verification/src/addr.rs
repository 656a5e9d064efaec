//! The SOCKS5 target address model.
//!
//! A target is an IPv4 endpoint, an IPv6 endpoint, or a domain name with a
//! port.  IP octet strings and domain names are held as plain byte vectors,
//! so the whole value is visible to the verifier; the mathematical value of
//! an address is an [`AddrView`].

use vstd::prelude::*;

use crate::error::Socks5Error;

verus! {

/// The mathematical value of a [`TargetAddr`]: variant tag, address bytes,
/// and port.
pub enum AddrView {
    Ip4 { octets: Seq<u8>, port: u16 },
    Ip6 { octets: Seq<u8>, port: u16 },
    Domain { name: Seq<u8>, port: u16 },
}

impl AddrView {
    /// Shape validity: an IP variant carries exactly its fixed number of
    /// address octets.  Domain names of any length are representable; the
    /// wire format constrains them only at encoding time.
    pub open spec fn wf(self) -> bool {
        match self {
            AddrView::Ip4 { octets, .. } => octets.len() == 4,
            AddrView::Ip6 { octets, .. } => octets.len() == 16,
            AddrView::Domain { .. } => true,
        }
    }

    /// Whether the address can be carried in a SOCKS5 message: a domain
    /// name must fit the one-byte length field of the wire format.
    pub open spec fn encodable(self) -> bool {
        self.wf() && match self {
            AddrView::Domain { name, .. } => name.len() <= 255,
            _ => true,
        }
    }
}

/// A SOCKS5 target address: an IPv4 or IPv6 numeric endpoint, or a domain
/// name (as raw bytes) with a port.
#[derive(Debug)]
pub enum TargetAddr {
    Ip4 { octets: Vec<u8>, port: u16 },
    Ip6 { octets: Vec<u8>, port: u16 },
    Domain { name: Vec<u8>, port: u16 },
}

impl View for TargetAddr {
    type V = AddrView;

    open spec fn view(&self) -> AddrView {
        match *self {
            TargetAddr::Ip4 { octets, port } => AddrView::Ip4 { octets: octets@, port },
            TargetAddr::Ip6 { octets, port } => AddrView::Ip6 { octets: octets@, port },
            TargetAddr::Domain { name, port } => AddrView::Domain { name: name@, port },
        }
    }
}

impl TargetAddr {
    /// Build an IPv4 target from its four octets and a port.
    pub fn ipv4(a: u8, b: u8, c: u8, d: u8, port: u16) -> (r: TargetAddr)
        ensures
            r@ == (AddrView::Ip4 { octets: seq![a, b, c, d], port }),
            r@.encodable(),
    {
        let mut octets: Vec<u8> = Vec::new();
        octets.push(a);
        octets.push(b);
        octets.push(c);
        octets.push(d);
        proof {
            assert(octets@ =~= seq![a, b, c, d]);
        }
        TargetAddr::Ip4 { octets, port }
    }

    /// Build an IPv6 target from its sixteen octets and a port.
    pub fn ipv6(octets: Vec<u8>, port: u16) -> (r: TargetAddr)
        requires
            octets@.len() == 16,
        ensures
            r@ == (AddrView::Ip6 { octets: octets@, port }),
            r@.encodable(),
    {
        TargetAddr::Ip6 { octets, port }
    }

    /// Build a domain-name target.  Names longer than 255 bytes are
    /// representable but every encoding operation rejects them with
    /// [`Socks5Error::DomainTooLong`].
    pub fn domain(name: Vec<u8>, port: u16) -> (r: TargetAddr)
        ensures
            r@ == (AddrView::Domain { name: name@, port }),
            r@.wf(),
    {
        TargetAddr::Domain { name, port }
    }

    /// Report whether the address is well shaped (see [`AddrView::wf`]).
    pub fn well_formed(&self) -> (b: bool)
        ensures
            b == self@.wf(),
    {
        match self {
            TargetAddr::Ip4 { octets, .. } => octets.len() == 4,
            TargetAddr::Ip6 { octets, .. } => octets.len() == 16,
            TargetAddr::Domain { .. } => true,
        }
    }

    /// Report whether the address fits the wire format (see
    /// [`AddrView::encodable`]).
    pub fn is_encodable(&self) -> (b: bool)
        ensures
            b == self@.encodable(),
    {
        match self {
            TargetAddr::Ip4 { octets, .. } => octets.len() == 4,
            TargetAddr::Ip6 { octets, .. } => octets.len() == 16,
            TargetAddr::Domain { name, .. } => name.len() <= 255,
        }
    }
}

impl Clone for TargetAddr {
    fn clone(&self) -> (r: Self)
        ensures
            r@ == self@,
    {
        match self {
            TargetAddr::Ip4 { octets, port } => {
                let c = octets.clone();
                proof {
                    assert(c@ =~= octets@);
                }
                TargetAddr::Ip4 { octets: c, port: *port }
            }
            TargetAddr::Ip6 { octets, port } => {
                let c = octets.clone();
                proof {
                    assert(c@ =~= octets@);
                }
                TargetAddr::Ip6 { octets: c, port: *port }
            }
            TargetAddr::Domain { name, port } => {
                let c = name.clone();
                proof {
                    assert(c@ =~= name@);
                }
                TargetAddr::Domain { name: c, port: *port }
            }
        }
    }
}

impl PartialEq for TargetAddr {
    /// Structural equality: two IP targets are equal iff their octets and
    /// port match; two domain targets iff their name bytes and port match;
    /// values of different variants are never equal.
    fn eq(&self, other: &Self) -> (r: bool) {
        match (self, other) {
            (
                TargetAddr::Ip4 { octets: a, port: p },
                TargetAddr::Ip4 { octets: b, port: q },
            ) => {
                let bytes_same = a == b;
                proof {
                    if bytes_same {
                        assert(a@ =~= b@);
                    }
                }
                bytes_same && *p == *q
            }
            (
                TargetAddr::Ip6 { octets: a, port: p },
                TargetAddr::Ip6 { octets: b, port: q },
            ) => {
                let bytes_same = a == b;
                proof {
                    if bytes_same {
                        assert(a@ =~= b@);
                    }
                }
                bytes_same && *p == *q
            }
            (
                TargetAddr::Domain { name: a, port: p },
                TargetAddr::Domain { name: b, port: q },
            ) => {
                let bytes_same = a == b;
                proof {
                    if bytes_same {
                        assert(a@ =~= b@);
                    }
                }
                bytes_same && *p == *q
            }
            _ => false,
        }
    }
}

impl vstd::std_specs::cmp::PartialEqSpecImpl for TargetAddr {
    open spec fn obeys_eq_spec() -> bool {
        true
    }

    open spec fn eq_spec(&self, other: &Self) -> bool {
        self@ == other@
    }
}

/// The decision at the heart of converting a target address to a numeric
/// endpoint: an IP target already is one, and the resolver is not consulted;
/// a domain target takes the first endpoint the resolver produced, and the
/// conversion fails when the resolver produced none.
pub fn numeric_endpoint(addr: TargetAddr, resolved: Option<TargetAddr>) -> (r: Result<
    TargetAddr,
    Socks5Error,
>)
    ensures
        !(addr@ is Domain) ==> (r matches Ok(e) && e@ == addr@),
        addr@ is Domain ==> match resolved {
            Some(e) => (r matches Ok(x) && x@ == e@),
            None => r == Err::<TargetAddr, Socks5Error>(Socks5Error::InvalidTargetAddress),
        },
{
    match addr {
        TargetAddr::Domain { .. } => match resolved {
            Some(e) => Ok(e),
            None => Err(Socks5Error::InvalidTargetAddress),
        },
        ip => Ok(ip),
    }
}

} // verus!
