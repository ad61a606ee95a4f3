//! Socket and endpoint addresses as plain values.

use vstd::prelude::*;

verus! {

/// An IPv4 address, by its four octets in network order.
#[derive(Clone, Copy, Debug, PartialEq, Eq, Structural)]
pub struct Ipv4Addr {
    pub a: u8,
    pub b: u8,
    pub c: u8,
    pub d: u8,
}

impl Ipv4Addr {
    /// The address `a.b.c.d`.
    pub fn new(a: u8, b: u8, c: u8, d: u8) -> (ip: Self)
        ensures
            ip == (Ipv4Addr { a, b, c, d }),
    {
        Ipv4Addr { a, b, c, d }
    }

    /// `127.0.0.1`.
    pub open spec fn spec_localhost() -> Self {
        Ipv4Addr { a: 127, b: 0, c: 0, d: 1 }
    }

    /// `127.0.0.1`.
    pub fn localhost() -> (ip: Self)
        ensures
            ip == Self::spec_localhost(),
    {
        Ipv4Addr::new(127, 0, 0, 1)
    }

    /// Whether the address lies in `127.0.0.0/8`.
    pub open spec fn is_loopback(self) -> bool {
        self.a == 127
    }
}

/// An IPv6 address, as the number its sixteen octets spell in network order.
#[derive(Clone, Copy, Debug, PartialEq, Eq, Structural)]
pub struct Ipv6Addr {
    pub bits: u128,
}

impl Ipv6Addr {
    /// `::1`.
    pub open spec fn spec_localhost() -> Self {
        Ipv6Addr { bits: 1 }
    }

    /// `::1`.
    pub fn localhost() -> (ip: Self)
        ensures
            ip == Self::spec_localhost(),
    {
        Ipv6Addr { bits: 1 }
    }

    /// Whether the address is `::1`.
    pub open spec fn is_loopback(self) -> bool {
        self.bits == 1
    }
}

/// An IPv4 address with a port.
#[derive(Clone, Copy, Debug, PartialEq, Eq, Structural)]
pub struct SocketAddrV4 {
    pub ip: Ipv4Addr,
    pub port: u16,
}

/// An IPv6 address with a port, a flow label and a scope.
#[derive(Clone, Copy, Debug, PartialEq, Eq, Structural)]
pub struct SocketAddrV6 {
    pub ip: Ipv6Addr,
    pub port: u16,
    pub flowinfo: u32,
    pub scope_id: u32,
}

/// Where a UDP socket can be reached.
#[derive(Clone, Copy, Debug, PartialEq, Eq, Structural)]
pub enum SocketAddr {
    V4(SocketAddrV4),
    V6(SocketAddrV6),
}

impl SocketAddr {
    pub open spec fn spec_port(self) -> u16 {
        match self {
            SocketAddr::V4(addr) => addr.port,
            SocketAddr::V6(addr) => addr.port,
        }
    }

    pub open spec fn spec_ip(self) -> IpAddr {
        match self {
            SocketAddr::V4(addr) => IpAddr::V4(addr.ip),
            SocketAddr::V6(addr) => IpAddr::V6(addr.ip),
        }
    }

    /// Whether the address is of the local host.
    pub open spec fn is_loopback(self) -> bool {
        match self {
            SocketAddr::V4(addr) => addr.ip.is_loopback(),
            SocketAddr::V6(addr) => addr.ip.is_loopback(),
        }
    }
}

/// An address of either family, without a port.
#[derive(Clone, Copy, Debug, PartialEq, Eq, Structural)]
pub enum IpAddr {
    V4(Ipv4Addr),
    V6(Ipv6Addr),
}

/// The host part of an endpoint's address: an IP address, or a name that is
/// yet to be resolved.
#[derive(Debug)]
pub enum Host {
    Ip(IpAddr),
    Name(String),
}

/// What a [`Host`] stands for.
pub enum HostView {
    Ip(IpAddr),
    Name(Seq<char>),
}

impl View for Host {
    type V = HostView;

    open spec fn view(&self) -> HostView {
        match self {
            Host::Ip(ip) => HostView::Ip(*ip),
            Host::Name(name) => HostView::Name(name@),
        }
    }
}

impl Host {
    /// Whether both are the same IP address or the same name.
    pub fn same(&self, other: &Host) -> (same: bool)
        ensures
            same == (self@ == other@),
    {
        match (self, other) {
            (Host::Ip(a), Host::Ip(b)) => *a == *b,
            (Host::Name(a), Host::Name(b)) => *a == *b,
            _ => false,
        }
    }
}

/// The address of an endpoint: a host and a port.
#[derive(Debug)]
pub struct EndpointAddress {
    pub host: Host,
    pub port: u16,
}

/// What an [`EndpointAddress`] stands for.
pub struct EndpointAddressView {
    pub host: HostView,
    pub port: u16,
}

impl View for EndpointAddress {
    type V = EndpointAddressView;

    open spec fn view(&self) -> EndpointAddressView {
        EndpointAddressView { host: self.host@, port: self.port }
    }
}

impl EndpointAddressView {
    /// The endpoint address that names the same host and port as a socket
    /// address.
    pub open spec fn of_socket(addr: SocketAddr) -> Self {
        EndpointAddressView { host: HostView::Ip(addr.spec_ip()), port: addr.spec_port() }
    }

    /// `a.b.c.d:port`.
    pub open spec fn ipv4(a: u8, b: u8, c: u8, d: u8, port: u16) -> Self {
        EndpointAddressView { host: HostView::Ip(IpAddr::V4(Ipv4Addr { a, b, c, d })), port }
    }
}

impl EndpointAddress {
    /// The endpoint address `ip:port`.
    pub fn from_ipv4(ip: Ipv4Addr, port: u16) -> (address: Self)
        ensures
            address@ == EndpointAddressView::ipv4(ip.a, ip.b, ip.c, ip.d, port),
    {
        EndpointAddress { host: Host::Ip(IpAddr::V4(ip)), port }
    }

    /// Whether both name the same host and port.
    pub fn same(&self, other: &EndpointAddress) -> (same: bool)
        ensures
            same == (self@ == other@),
    {
        self.port == other.port && self.host.same(&other.host)
    }
}

impl From<SocketAddr> for EndpointAddress {
    /// The endpoint address that names the same host and port.
    fn from(addr: SocketAddr) -> (address: Self) {
        match addr {
            SocketAddr::V4(v4) => EndpointAddress {
                host: Host::Ip(IpAddr::V4(v4.ip)),
                port: v4.port,
            },
            SocketAddr::V6(v6) => EndpointAddress {
                host: Host::Ip(IpAddr::V6(v6.ip)),
                port: v6.port,
            },
        }
    }
}

impl vstd::std_specs::convert::FromSpecImpl<SocketAddr> for EndpointAddress {
    open spec fn obeys_from_spec() -> bool {
        true
    }

    open spec fn from_spec(addr: SocketAddr) -> Self {
        EndpointAddress { host: Host::Ip(addr.spec_ip()), port: addr.spec_port() }
    }
}

} // verus!
