//! Laws of addresses: picking one, putting it on the local host, and turning it
//! into the address of an endpoint.

use crate::net::{
    EndpointAddress, EndpointAddressView, Host, HostView, IpAddr, Ipv4Addr, Ipv6Addr, SocketAddr,
};
use crate::test::address::{
    address_of, drawn, get_address, gives, map_addr_to_localhost, map_to_localhost, on_localhost,
    pick_address, AddressType, LocalAddresses,
};
use vstd::prelude::*;

verus! {

/// An endpoint's address that is made from a socket address has that address's
/// host and port, whatever they are.
pub proof fn law_endpoint_address_names_its_socket(addr: SocketAddr, address: EndpointAddress)
    requires
        call_ensures(<EndpointAddress as From<SocketAddr>>::from, (addr,), address),
    ensures
        match addr {
            SocketAddr::V4(v4) => address.host == Host::Ip(IpAddr::V4(v4.ip)) && address.port
                == v4.port,
            SocketAddr::V6(v6) => address.host == Host::Ip(IpAddr::V6(v6.ip)) && address.port
                == v6.port,
        },
{
}

/// Two socket addresses with different ports, or with different IP addresses,
/// make different endpoint addresses.
pub proof fn law_endpoint_addresses_tell_sockets_apart(
    a: SocketAddr,
    b: SocketAddr,
    from_a: EndpointAddress,
    from_b: EndpointAddress,
    same: bool,
)
    requires
        call_ensures(<EndpointAddress as From<SocketAddr>>::from, (a,), from_a),
        call_ensures(<EndpointAddress as From<SocketAddr>>::from, (b,), from_b),
        call_ensures(EndpointAddress::same, (&from_a, &from_b), same),
    ensures
        same <==> match (a, b) {
            (SocketAddr::V4(x), SocketAddr::V4(y)) => x.ip == y.ip && x.port == y.port,
            (SocketAddr::V6(x), SocketAddr::V6(y)) => x.ip == y.ip && x.port == y.port,
            _ => false,
        },
{
}

/// What stands for the endpoint address of a socket address has its host and its
/// port.
pub proof fn law_of_socket(addr: SocketAddr)
    ensures
        addr matches SocketAddr::V4(v4) ==> {
            &&& EndpointAddressView::of_socket(addr).host == HostView::Ip(IpAddr::V4(v4.ip))
            &&& EndpointAddressView::of_socket(addr).port == v4.port
            &&& addr.spec_ip() == IpAddr::V4(v4.ip)
            &&& addr.spec_port() == v4.port
            &&& addr.is_loopback() <==> v4.ip.a == 127
        },
        addr matches SocketAddr::V6(v6) ==> {
            &&& EndpointAddressView::of_socket(addr).host == HostView::Ip(IpAddr::V6(v6.ip))
            &&& EndpointAddressView::of_socket(addr).port == v6.port
            &&& addr.spec_ip() == IpAddr::V6(v6.ip)
            &&& addr.spec_port() == v6.port
            &&& addr.is_loopback() <==> v6.ip.bits == 1
        },
{
}

/// What an endpoint's address stands for keeps its host and its port.
pub proof fn law_endpoint_address_view(address: EndpointAddress)
    ensures
        address@.port == address.port,
        address@.host == match address.host {
            Host::Ip(ip) => HostView::Ip(ip),
            Host::Name(name) => HostView::Name(name@),
        },
{
}

/// Two endpoint addresses are the same if and only if they have the same port and
/// the same IP address or the same name.
pub proof fn law_same_endpoint_addresses(a: EndpointAddress, b: EndpointAddress, same: bool)
    requires
        call_ensures(EndpointAddress::same, (&a, &b), same),
    ensures
        same <==> a.port == b.port && match (a.host, b.host) {
            (Host::Ip(x), Host::Ip(y)) => x == y,
            (Host::Name(x), Host::Name(y)) => x@ == y@,
            _ => false,
        },
{
}

/// The endpoint address of an IPv4 address and a port has both.
pub proof fn law_from_ipv4(
    a: u8,
    b: u8,
    c: u8,
    d: u8,
    port: u16,
    ip: Ipv4Addr,
    address: EndpointAddress,
)
    requires
        call_ensures(Ipv4Addr::new, (a, b, c, d), ip),
        call_ensures(EndpointAddress::from_ipv4, (ip, port), address),
    ensures
        ip.a == a && ip.b == b && ip.c == c && ip.d == d,
        address.host == Host::Ip(IpAddr::V4(ip)),
        address.port == port,
        EndpointAddressView::ipv4(a, b, c, d, port).port == port,
        EndpointAddressView::ipv4(a, b, c, d, port).host == HostView::Ip(IpAddr::V4(ip)),
{
}

/// The local host is `127.0.0.1`, and `::1`.
pub proof fn law_localhost(v4: Ipv4Addr, v6: Ipv6Addr)
    requires
        call_ensures(Ipv4Addr::localhost, (), v4),
        call_ensures(Ipv6Addr::localhost, (), v6),
    ensures
        v4.a == 127 && v4.b == 0 && v4.c == 0 && v4.d == 1,
        v6.bits == 1,
{
}

/// A request for a family is answered with the socket's address of that family
/// and no other, whatever the addresses are. A random request is answered with
/// the address of the family that was drawn.
pub proof fn law_wanted_family_is_given(
    address_type: AddressType,
    socket: LocalAddresses,
    addr: Option<SocketAddr>,
)
    requires
        call_ensures(get_address, (&address_type, &socket), addr),
    ensures
        address_type == AddressType::Ipv4 ==> addr == socket.ipv4,
        address_type == AddressType::Ipv6 ==> addr == socket.ipv6,
        address_type == AddressType::Random ==> {
            ||| drawn(true) && addr == socket.ipv6
            ||| drawn(false) && addr == socket.ipv4
        },
{
    if address_type == AddressType::Random {
        let ipv6 = choose|ipv6: bool| #[trigger]
            drawn(ipv6) && addr == address_of(address_type, ipv6, socket);
        assert(ipv6 == true || ipv6 == false);
    }
}

/// What a socket gives for a type is the address of that family.
pub proof fn law_gives(
    address_type: AddressType,
    socket: LocalAddresses,
    addr: Option<SocketAddr>,
)
    requires
        gives(address_type, socket, addr),
    ensures
        address_type == AddressType::Ipv4 ==> addr == socket.ipv4,
        address_type == AddressType::Ipv6 ==> addr == socket.ipv6,
        address_type == AddressType::Random ==> {
            ||| drawn(true) && addr == socket.ipv6
            ||| drawn(false) && addr == socket.ipv4
        },
{
    if address_type == AddressType::Random {
        let ipv6 = choose|ipv6: bool| #[trigger]
            drawn(ipv6) && addr == address_of(address_type, ipv6, socket);
        assert(ipv6 == true || ipv6 == false);
    }
}

/// The answer for a type depends on nothing but that family's address, and on
/// the bit only if the type is random.
pub proof fn law_pick_address(
    address_type: AddressType,
    ipv6: bool,
    socket: LocalAddresses,
    addr: Option<SocketAddr>,
)
    requires
        call_ensures(pick_address, (&address_type, ipv6, &socket), addr),
    ensures
        address_type == AddressType::Ipv4 ==> addr == socket.ipv4,
        address_type == AddressType::Ipv6 ==> addr == socket.ipv6,
        address_type == AddressType::Random && ipv6 ==> addr == socket.ipv6,
        address_type == AddressType::Random && !ipv6 ==> addr == socket.ipv4,
{
}

/// An address may be asked for of every type and of every socket.
pub proof fn law_addresses_may_be_asked_for(
    address_type: AddressType,
    ipv6: bool,
    socket: LocalAddresses,
)
    ensures
        call_requires(get_address, (&address_type, &socket)),
        call_requires(pick_address, (&address_type, ipv6, &socket)),
{
}

/// Mapping a socket address to the local host changes its IP address to that of
/// the local host, of the same family, and nothing else.
pub proof fn law_socket_addresses_map_to_localhost(address: &mut SocketAddr)
    requires
        call_ensures(map_addr_to_localhost, (address,), ()),
    ensures
        call_requires(map_addr_to_localhost, (address,)),
        match (*final(address), *old(address)) {
            (SocketAddr::V4(l), SocketAddr::V4(a)) => {
                &&& l.ip.a == 127 && l.ip.b == 0 && l.ip.c == 0 && l.ip.d == 1
                &&& l.port == a.port
            },
            (SocketAddr::V6(l), SocketAddr::V6(a)) => {
                &&& l.ip.bits == 1
                &&& l.port == a.port && l.flowinfo == a.flowinfo && l.scope_id == a.scope_id
            },
            _ => false,
        },
{
}

/// The form of an address on the local host, in terms of its parts.
pub proof fn law_on_localhost_form(addr: SocketAddr)
    ensures
        match (on_localhost(addr), addr) {
            (SocketAddr::V4(l), SocketAddr::V4(a)) => {
                &&& l.ip.a == 127 && l.ip.b == 0 && l.ip.c == 0 && l.ip.d == 1
                &&& l.port == a.port
            },
            (SocketAddr::V6(l), SocketAddr::V6(a)) => {
                &&& l.ip.bits == 1
                &&& l.port == a.port && l.flowinfo == a.flowinfo && l.scope_id == a.scope_id
            },
            _ => false,
        },
{
}

/// Mapping an endpoint's address to the local host gives the local host's IP
/// address of the family that it was resolved to, and the resolved port,
/// whatever the endpoint's address was.
pub proof fn law_endpoint_addresses_map_to_localhost(
    address: &mut EndpointAddress,
    resolved: SocketAddr,
)
    requires
        call_ensures(map_to_localhost, (address, resolved), ()),
    ensures
        call_requires(map_to_localhost, (address, resolved)),
        resolved matches SocketAddr::V4(v4) ==> {
            &&& final(address).host == Host::Ip(
                IpAddr::V4(Ipv4Addr { a: 127, b: 0, c: 0, d: 1 }),
            )
            &&& final(address).port == v4.port
        },
        resolved matches SocketAddr::V6(v6) ==> {
            &&& final(address).host == Host::Ip(IpAddr::V6(Ipv6Addr { bits: 1 }))
            &&& final(address).port == v6.port
        },
{
}

/// Two hosts are the same if and only if they are the same IP address or have the
/// same name.
pub proof fn law_same_hosts(a: Host, b: Host, same: bool)
    requires
        call_ensures(Host::same, (&a, &b), same),
    ensures
        same <==> match (a, b) {
            (Host::Ip(x), Host::Ip(y)) => x == y,
            (Host::Name(x), Host::Name(y)) => x@ == y@,
            _ => false,
        },
{
}

} // verus!
