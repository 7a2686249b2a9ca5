//! Networking capability: socket addressing and deferred resolution.
//!
//! Address resolution is a first-class suspend point: every caller-facing
//! address form is normalized through one entry point. A form that
//! already names concrete socket addresses resolves immediately and
//! exactly; a form naming a host must go to the engine's resolver, which
//! may perform I/O and therefore fail or suspend — that part is the
//! engine's, this layer pins down which forms need it and what the
//! others resolve to.

use vstd::prelude::*;

verus! {

/// An IPv4 address: four octets.
#[derive(Clone, Copy)]
pub struct Ipv4Addr {
    /// The address's octets, most significant first.
    pub octets: [u8; 4],
}

/// An IPv6 address: eight 16-bit segments.
#[derive(Clone, Copy)]
pub struct Ipv6Addr {
    /// The address's segments, most significant first.
    pub segments: [u16; 8],
}

/// An IP address of either family.
#[derive(Clone, Copy)]
pub enum IpAddr {
    /// An IPv4 address.
    V4(Ipv4Addr),
    /// An IPv6 address.
    V6(Ipv6Addr),
}

/// An IPv4 socket address: address plus port.
#[derive(Clone, Copy)]
pub struct SocketAddrV4 {
    /// The host address.
    pub ip: Ipv4Addr,
    /// The port.
    pub port: u16,
}

/// An IPv6 socket address: address plus port.
#[derive(Clone, Copy)]
pub struct SocketAddrV6 {
    /// The host address.
    pub ip: Ipv6Addr,
    /// The port.
    pub port: u16,
}

/// A socket address of either family.
#[derive(Clone, Copy)]
pub enum SocketAddr {
    /// An IPv4 socket address.
    V4(SocketAddrV4),
    /// An IPv6 socket address.
    V6(SocketAddrV6),
}

impl SocketAddr {
    /// The address's port.
    pub open spec fn port_spec(&self) -> u16 {
        match self {
            SocketAddr::V4(a) => a.port,
            SocketAddr::V6(a) => a.port,
        }
    }

    /// Pairs an IP address of either family with a port.
    pub fn new(ip: IpAddr, port: u16) -> (r: SocketAddr)
        ensures
            r == from_ip(ip, port),
    {
        match ip {
            IpAddr::V4(a) => SocketAddr::V4(SocketAddrV4 { ip: a, port }),
            IpAddr::V6(a) => SocketAddr::V6(SocketAddrV6 { ip: a, port }),
        }
    }

    /// The address's port.
    pub fn port(&self) -> (p: u16)
        ensures
            p == self.port_spec(),
    {
        match self {
            SocketAddr::V4(a) => a.port,
            SocketAddr::V6(a) => a.port,
        }
    }
}

/// The socket address an IP address and port name.
pub open spec fn from_ip(ip: IpAddr, port: u16) -> SocketAddr {
    match ip {
        IpAddr::V4(a) => SocketAddr::V4(SocketAddrV4 { ip: a, port }),
        IpAddr::V6(a) => SocketAddr::V6(SocketAddrV6 { ip: a, port }),
    }
}

/// Every address form a caller can hand to the resolution entry point.
pub enum SocketAddrsKind {
    /// Concrete socket addresses, tried in order.
    Slice(Vec<SocketAddr>),
    /// A host name or literal, with the port given apart.
    StrPort(String, u16),
    /// An IP address of either family with a port.
    IpAddr(IpAddr, u16),
    /// An IPv4 address with a port.
    Ipv4Addr(Ipv4Addr, u16),
    /// An IPv6 address with a port.
    Ipv6Addr(Ipv6Addr, u16),
    /// A bare string in `host:port` form.
    Str(String),
    /// One concrete socket address.
    SocketAddr(SocketAddr),
    /// One concrete IPv4 socket address.
    SocketAddrV4(SocketAddrV4),
    /// One concrete IPv6 socket address.
    SocketAddrV6(SocketAddrV6),
}

impl SocketAddrsKind {
    /// Whether the form already names concrete socket addresses, so
    /// that resolving it needs no I/O and cannot fail or suspend.
    pub open spec fn is_literal(&self) -> bool {
        match self {
            SocketAddrsKind::StrPort(h, p) => false,
            SocketAddrsKind::Str(s) => false,
            _ => true,
        }
    }

    /// The socket addresses a literal form names, in order.
    pub open spec fn literal_addrs(&self) -> Seq<SocketAddr>
        recommends
            self.is_literal(),
    {
        match self {
            SocketAddrsKind::Slice(v) => v@,
            SocketAddrsKind::IpAddr(ip, port) => seq![from_ip(*ip, *port)],
            SocketAddrsKind::Ipv4Addr(a, port) => seq![
                SocketAddr::V4(SocketAddrV4 { ip: *a, port: *port }),
            ],
            SocketAddrsKind::Ipv6Addr(a, port) => seq![
                SocketAddr::V6(SocketAddrV6 { ip: *a, port: *port }),
            ],
            SocketAddrsKind::SocketAddr(a) => seq![*a],
            SocketAddrsKind::SocketAddrV4(a) => seq![SocketAddr::V4(*a)],
            SocketAddrsKind::SocketAddrV6(a) => seq![SocketAddr::V6(*a)],
            SocketAddrsKind::StrPort(h, p) => Seq::empty(),
            SocketAddrsKind::Str(s) => Seq::empty(),
        }
    }
}

/// A type that can be converted to socket addresses through the
/// resolution entry point.
pub trait ToSocketAddrs {
    /// The address form the value names.
    spec fn kind_spec(&self) -> SocketAddrsKind;

    /// The address form the value names.
    fn kind(&self) -> (k: SocketAddrsKind)
        ensures
            k == self.kind_spec(),
    ;
}

impl ToSocketAddrs for SocketAddr {
    open spec fn kind_spec(&self) -> SocketAddrsKind {
        SocketAddrsKind::SocketAddr(*self)
    }

    fn kind(&self) -> (k: SocketAddrsKind) {
        SocketAddrsKind::SocketAddr(*self)
    }
}

impl ToSocketAddrs for SocketAddrV4 {
    open spec fn kind_spec(&self) -> SocketAddrsKind {
        SocketAddrsKind::SocketAddrV4(*self)
    }

    fn kind(&self) -> (k: SocketAddrsKind) {
        SocketAddrsKind::SocketAddrV4(*self)
    }
}

impl ToSocketAddrs for SocketAddrV6 {
    open spec fn kind_spec(&self) -> SocketAddrsKind {
        SocketAddrsKind::SocketAddrV6(*self)
    }

    fn kind(&self) -> (k: SocketAddrsKind) {
        SocketAddrsKind::SocketAddrV6(*self)
    }
}

impl ToSocketAddrs for (IpAddr, u16) {
    open spec fn kind_spec(&self) -> SocketAddrsKind {
        SocketAddrsKind::IpAddr(self.0, self.1)
    }

    fn kind(&self) -> (k: SocketAddrsKind) {
        SocketAddrsKind::IpAddr(self.0, self.1)
    }
}

impl ToSocketAddrs for (Ipv4Addr, u16) {
    open spec fn kind_spec(&self) -> SocketAddrsKind {
        SocketAddrsKind::Ipv4Addr(self.0, self.1)
    }

    fn kind(&self) -> (k: SocketAddrsKind) {
        SocketAddrsKind::Ipv4Addr(self.0, self.1)
    }
}

impl ToSocketAddrs for (Ipv6Addr, u16) {
    open spec fn kind_spec(&self) -> SocketAddrsKind {
        SocketAddrsKind::Ipv6Addr(self.0, self.1)
    }

    fn kind(&self) -> (k: SocketAddrsKind) {
        SocketAddrsKind::Ipv6Addr(self.0, self.1)
    }
}

/// What resolution yields without performing I/O: the concrete
/// addresses of a literal form, or the host query an engine's resolver
/// must answer — the one part of resolution that can suspend or fail.
pub enum Resolution {
    /// The form named these addresses; no lookup is needed.
    Resolved(Vec<SocketAddr>),
    /// The engine must resolve this `host:port` string.
    Host(String),
    /// The engine must resolve this host name for this port.
    HostPort(String, u16),
}

/// Normalizes any address form: the one resolution entry point. A
/// literal form resolves to exactly the addresses it names, in order;
/// a host-naming form comes back as the query the engine's resolver
/// answers, port and host kept apart exactly as given.
pub fn get_socket_addrs(kind: SocketAddrsKind) -> (r: Resolution)
    ensures
        (r is Resolved) <==> kind.is_literal(),
        (r matches Resolution::Resolved(v) ==> v@ == kind.literal_addrs()),
        kind is Str ==> r is Host && r->Host_0 == kind->Str_0,
        kind is StrPort ==> r is HostPort && r->HostPort_0 == kind->StrPort_0
            && r->HostPort_1 == kind->StrPort_1,
{
    match kind {
        SocketAddrsKind::Slice(v) => Resolution::Resolved(v),
        SocketAddrsKind::StrPort(host, port) => Resolution::HostPort(host, port),
        SocketAddrsKind::IpAddr(ip, port) => {
            let mut v: Vec<SocketAddr> = Vec::new();
            v.push(SocketAddr::new(ip, port));
            Resolution::Resolved(v)
        },
        SocketAddrsKind::Ipv4Addr(a, port) => {
            let mut v: Vec<SocketAddr> = Vec::new();
            v.push(SocketAddr::V4(SocketAddrV4 { ip: a, port }));
            Resolution::Resolved(v)
        },
        SocketAddrsKind::Ipv6Addr(a, port) => {
            let mut v: Vec<SocketAddr> = Vec::new();
            v.push(SocketAddr::V6(SocketAddrV6 { ip: a, port }));
            Resolution::Resolved(v)
        },
        SocketAddrsKind::Str(s) => Resolution::Host(s),
        SocketAddrsKind::SocketAddr(a) => {
            let mut v: Vec<SocketAddr> = Vec::new();
            v.push(a);
            Resolution::Resolved(v)
        },
        SocketAddrsKind::SocketAddrV4(a) => {
            let mut v: Vec<SocketAddr> = Vec::new();
            v.push(SocketAddr::V4(a));
            Resolution::Resolved(v)
        },
        SocketAddrsKind::SocketAddrV6(a) => {
            let mut v: Vec<SocketAddr> = Vec::new();
            v.push(SocketAddr::V6(a));
            Resolution::Resolved(v)
        },
    }
}

/// Law: resolution of a literal form is exact and needs no I/O — it
/// yields precisely the addresses the form names — and only the two
/// host-naming forms are ever handed to an engine's resolver.
pub proof fn lemma_literal_resolution(kind: SocketAddrsKind)
    ensures
        kind.is_literal() <==> !(kind is Str || kind is StrPort),
{
}

} // verus!
