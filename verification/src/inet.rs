//! Internet socket addresses and their `sockaddr` form.
use vstd::prelude::*;
use crate::error::SocketError;

verus! {

/// An internet socket address: what `std::net::SocketAddr` holds.
#[allow(inconsistent_fields)]
#[derive(Debug, Copy, Clone, PartialEq, Eq)]
pub enum SocketAddress {
    V4 { ip: [u8; 4], port: u16 },
    V6 { ip: [u8; 16], port: u16, flowinfo: u32, scope_id: u32 },
}

/// A generic socket address, laid out as `libc::sockaddr`: the address family,
/// then fourteen bytes of family-specific data.
#[derive(Debug, Copy, Clone, PartialEq, Eq)]
pub struct SockAddr {
    pub family: u16,
    pub data: [u8; 14],
}

/// `libc::AF_INET`, the IPv4 address family; libc defines it as 2 on Linux.
#[verifier::external_body]
pub(crate) fn af_inet() -> (r: i32)
    ensures
        r == 2,
{
    libc::AF_INET
}

/// `libc::AF_INET6`, the IPv6 address family; libc defines it as 10 on Linux.
#[verifier::external_body]
pub(crate) fn af_inet6() -> (r: i32)
    ensures
        r == 10,
{
    libc::AF_INET6
}

/// The bytes of a 16-bit value in network (big-endian) order.
pub open spec fn be_bytes16(x: u16) -> Seq<u8> {
    seq![(x / 256) as u8, (x % 256) as u8]
}

/// The bytes of a 32-bit value in network (big-endian) order.
pub open spec fn be_bytes32(x: u32) -> Seq<u8> {
    seq![(x / 0x1000000) as u8, ((x / 0x10000) % 256) as u8, ((x / 256) % 256) as u8, (x % 256) as u8]
}

/// The bytes of a 32-bit value in little-endian order.
pub open spec fn le_bytes32(x: u32) -> Seq<u8> {
    be_bytes32(x).reverse()
}

/// Host 16-bit value to its bytes in network order.
pub fn htons(hostint16: u16) -> (r: [u8; 2])
    ensures
        r@ == be_bytes16(hostint16),
        r[0] * 256 + r[1] == hostint16,
{
    [(hostint16 / 256) as u8, (hostint16 % 256) as u8]
}

/// Bytes in network order to the host 16-bit value.
pub fn ntohs(netint16: [u8; 2]) -> (r: u16)
    ensures
        r == netint16[0] * 256 + netint16[1],
        be_bytes16(r) == netint16@,
{
    let r = (netint16[0] as u16) * 256 + (netint16[1] as u16);
    assert(be_bytes16(r) =~= netint16@);
    r
}

/// Host 32-bit value to its bytes in network order.
pub fn htonl(hostint32: u32) -> (r: [u8; 4])
    ensures
        r@ == be_bytes32(hostint32),
        r[0] * 0x1000000 + r[1] * 0x10000 + r[2] * 256 + r[3] == hostint32,
{
    [
        (hostint32 / 0x1000000) as u8,
        ((hostint32 / 0x10000) % 256) as u8,
        ((hostint32 / 256) % 256) as u8,
        (hostint32 % 256) as u8,
    ]
}

/// Bytes in network order to the host 32-bit value.
pub fn ntohl(netint32: [u8; 4]) -> (r: u32)
    ensures
        r == netint32[0] * 0x1000000 + netint32[1] * 0x10000 + netint32[2] * 256 + netint32[3],
        be_bytes32(r) == netint32@,
{
    let r = (netint32[0] as u32) * 0x1000000 + (netint32[1] as u32) * 0x10000
        + (netint32[2] as u32) * 256 + (netint32[3] as u32);
    proof {
        lemma_be32_digits(netint32[0], netint32[1], netint32[2], netint32[3]);
    }
    assert(be_bytes32(r) =~= netint32@);
    r
}

/// The base-256 digits of a 32-bit value built from four bytes are those bytes.
proof fn lemma_be32_digits(a: u8, b: u8, c: u8, d: u8)
    ensures
        ({
            let r = a * 0x1000000 + b * 0x10000 + c * 256 + d;
            &&& r / 0x1000000 == a
            &&& (r / 0x10000) % 256 == b
            &&& (r / 256) % 256 == c
            &&& r % 256 == d
        }),
{
    let r = a * 0x1000000 + b * 0x10000 + c * 256 + d;
    assert(r / 0x1000000 == a) by (nonlinear_arith)
        requires r == a * 0x1000000 + b * 0x10000 + c * 256 + d, a < 256, b < 256, c < 256, d < 256;
    assert(r / 0x10000 == a * 256 + b) by (nonlinear_arith)
        requires r == a * 0x1000000 + b * 0x10000 + c * 256 + d, a < 256, b < 256, c < 256, d < 256;
    assert(r / 256 == a * 0x10000 + b * 256 + c) by (nonlinear_arith)
        requires r == a * 0x1000000 + b * 0x10000 + c * 256 + d, a < 256, b < 256, c < 256, d < 256;
}

/// Converting to network order and back gives the value back.
pub proof fn lemma_byte_order_roundtrip(x: u16, y: u32)
    ensures
        be_bytes16(x)[0] * 256 + be_bytes16(x)[1] == x,
        be_bytes32(y)[0] * 0x1000000 + be_bytes32(y)[1] * 0x10000 + be_bytes32(y)[2] * 256
            + be_bytes32(y)[3] == y,
{
}

/// `u32::to_ne_bytes`: the memory representation of the value in the target's
/// byte order, which is little- or big-endian; which one is not stated.
#[verifier::external_body]
fn u32_to_ne_bytes(x: u32) -> (r: [u8; 4])
    ensures
        r@ == le_bytes32(x) || r@ == be_bytes32(x),
{
    x.to_ne_bytes()
}

/// The data of an IPv4 `sockaddr` (a `sockaddr_in` read as `sockaddr`): the port in
/// network order, the four address bytes, and eight zero bytes.
pub open spec fn inet4_data(ip: [u8; 4], port: u16) -> Seq<u8> {
    be_bytes16(port) + ip@ + Seq::new(8, |i: int| 0u8)
}

/// The data of an IPv6 `sockaddr` (the first sixteen bytes of a `sockaddr_in6`):
/// the port in network order, the flow information as stored in memory, and the
/// first eight bytes of the address; the rest of the address and the scope id do
/// not fit.
pub open spec fn inet6_data(ip: [u8; 16], port: u16, flowinfo_bytes: Seq<u8>) -> Seq<u8> {
    be_bytes16(port) + flowinfo_bytes + ip@.take(8)
}

/// `sa` is the generic form of `addr` that `socketaddr_to_sockaddr` builds.
pub open spec fn is_sockaddr_of(addr: SocketAddress, sa: SockAddr) -> bool {
    match addr {
        SocketAddress::V4 { ip, port } => sa.family == 2 && sa.data@ == inet4_data(ip, port),
        SocketAddress::V6 { ip, port, flowinfo, scope_id } => {
            &&& sa.family == 10
            &&& (sa.data@ == inet6_data(ip, port, le_bytes32(flowinfo))
                || sa.data@ == inet6_data(ip, port, be_bytes32(flowinfo)))
        },
    }
}

/// The IPv4 address bytes and the port that an `AF_INET` `sockaddr` holds.
pub open spec fn inet4_parts(sa: SockAddr) -> (Seq<u8>, u16) {
    (sa.data@.subrange(2, 6), (sa.data[0] * 256 + sa.data[1]) as u16)
}

/// What a generic `sockaddr` of an internet address holds, byte by byte: the family
/// (`AF_INET` or `AF_INET6`), the port in network order in the first two bytes; for
/// IPv4 the four address bytes in order and then zeros; for IPv6 the flow
/// information in one of the two byte orders and then the first eight address bytes
/// in order.
pub proof fn lemma_sockaddr_layout(address: SocketAddress, r: SockAddr)
    requires
        is_sockaddr_of(address, r),
    ensures
        address matches SocketAddress::V4 { ip, port } ==> ({
            &&& r.family == 2
            &&& r.data[0] * 256 + r.data[1] == port
            &&& r.data@.subrange(2, 6) == ip@
            &&& forall|i: int| 6 <= i < 14 ==> r.data[i] == 0
        }),
        address matches SocketAddress::V6 { ip, port, flowinfo, scope_id } ==> ({
            &&& r.family == 10
            &&& r.data[0] * 256 + r.data[1] == port
            &&& r.data@.subrange(6, 14) == ip@.take(8)
            &&& (r.data[2] * 0x1000000 + r.data[3] * 0x10000 + r.data[4] * 256 + r.data[5] == flowinfo
                || r.data[5] * 0x1000000 + r.data[4] * 0x10000 + r.data[3] * 256 + r.data[2] == flowinfo)
        }),
{
    match address {
        SocketAddress::V4 { ip, port } => {
            lemma_byte_order_roundtrip(port, 0);
            assert(r.data@.subrange(2, 6) =~= ip@);
            assert forall|i: int| 6 <= i < 14 implies r.data[i] == 0 by {
                assert(r.data[i] == inet4_data(ip, port)[i]);
            }
        },
        SocketAddress::V6 { ip, port, flowinfo, scope_id } => {
            lemma_byte_order_roundtrip(port, flowinfo);
            assert(r.data@.subrange(6, 14) =~= ip@.take(8));
            if r.data@ == inet6_data(ip, port, be_bytes32(flowinfo)) {
                assert(r.data[2] == be_bytes32(flowinfo)[0]);
                assert(r.data[3] == be_bytes32(flowinfo)[1]);
                assert(r.data[4] == be_bytes32(flowinfo)[2]);
                assert(r.data[5] == be_bytes32(flowinfo)[3]);
            } else {
                assert(r.data[2] == le_bytes32(flowinfo)[0]);
                assert(r.data[3] == le_bytes32(flowinfo)[1]);
                assert(r.data[4] == le_bytes32(flowinfo)[2]);
                assert(r.data[5] == le_bytes32(flowinfo)[3]);
                assert(le_bytes32(flowinfo)[0] == be_bytes32(flowinfo)[3]);
                assert(le_bytes32(flowinfo)[3] == be_bytes32(flowinfo)[0]);
                assert(le_bytes32(flowinfo)[1] == be_bytes32(flowinfo)[2]);
                assert(le_bytes32(flowinfo)[2] == be_bytes32(flowinfo)[1]);
            }
        },
    }
}

/// Converts an internet socket address to the generic `sockaddr` form.
pub fn socketaddr_to_sockaddr(address: &SocketAddress) -> (r: SockAddr)
    ensures
        is_sockaddr_of(*address, r),
        address matches SocketAddress::V4 { ip, port } ==> ({
            &&& r.family == 2
            &&& r.data[0] * 256 + r.data[1] == port
            &&& r.data@.subrange(2, 6) == ip@
            &&& forall|i: int| 6 <= i < 14 ==> r.data[i] == 0
        }),
        address matches SocketAddress::V6 { ip, port, flowinfo, scope_id } ==> ({
            &&& r.family == 10
            &&& r.data[0] * 256 + r.data[1] == port
            &&& r.data@.subrange(6, 14) == ip@.take(8)
            &&& (r.data[2] * 0x1000000 + r.data[3] * 0x10000 + r.data[4] * 256 + r.data[5] == flowinfo
                || r.data[5] * 0x1000000 + r.data[4] * 0x10000 + r.data[3] * 256 + r.data[2] == flowinfo)
        }),
{
    let r = socketaddr_to_sockaddr_inner(address);
    proof {
        lemma_sockaddr_layout(*address, r);
    }
    r
}

fn socketaddr_to_sockaddr_inner(address: &SocketAddress) -> (r: SockAddr)
    ensures
        is_sockaddr_of(*address, r),
{
    match address {
        SocketAddress::V4 { ip, port } => {
            let p = htons(*port);
            let data: [u8; 14] = [p[0], p[1], ip[0], ip[1], ip[2], ip[3], 0, 0, 0, 0, 0, 0, 0, 0];
            assert(data@ =~= inet4_data(*ip, *port));
            SockAddr { family: af_inet() as u16, data }
        },
        SocketAddress::V6 { ip, port, flowinfo, scope_id } => {
            let p = htons(*port);
            let f = u32_to_ne_bytes(*flowinfo);
            let data: [u8; 14] = [
                p[0], p[1], f[0], f[1], f[2], f[3],
                ip[0], ip[1], ip[2], ip[3], ip[4], ip[5], ip[6], ip[7],
            ];
            assert(data@ =~= inet6_data(*ip, *port, f@));
            SockAddr { family: af_inet6() as u16, data }
        },
    }
}

/// Converts an `AF_INET` `sockaddr` back to an internet socket address. Other
/// families are not supported (the call would not return).
pub fn sockaddr_to_socketaddr(sa: &SockAddr) -> (r: SocketAddress)
    requires
        sa.family == 2,
    ensures
        r matches SocketAddress::V4 { ip, port } && (ip@, port) == inet4_parts(*sa),
        r matches SocketAddress::V4 { ip, port } && ip@ == sa.data@.subrange(2, 6)
            && port == sa.data[0] * 256 + sa.data[1],
{
    let ip: [u8; 4] = [sa.data[2], sa.data[3], sa.data[4], sa.data[5]];
    let port = ntohs([sa.data[0], sa.data[1]]);
    assert(ip@ =~= sa.data@.subrange(2, 6));
    SocketAddress::V4 { ip, port }
}

/// Reading an IPv4 `sockaddr` gives back the address bytes and the port it was
/// built from.
pub proof fn lemma_inet4_roundtrip(ip: [u8; 4], port: u16, sa: SockAddr)
    requires
        is_sockaddr_of(SocketAddress::V4 { ip, port }, sa),
    ensures
        sa.family == 2,
        inet4_parts(sa) == (ip@, port),
{
    assert(sa.data@.subrange(2, 6) =~= ip@);
}

/// The one socket address that an address resolved to: an error where it
/// resolved to none or to several.
pub fn tosocketaddrs_to_socketaddr(addresses: &Vec<SocketAddress>) -> (r: Result<SocketAddress, SocketError>)
    ensures
        addresses.len() == 1 <==> r is Ok,
        r matches Ok(a) ==> a == addresses[0],
        addresses.len() != 1 ==> (r matches Err(SocketError::AddressCount(n)) && n == addresses.len()),
{
    if addresses.len() == 1 {
        Ok(addresses[0])
    } else {
        Err(SocketError::AddressCount(addresses.len()))
    }
}

/// The generic `sockaddr` of the one address that an address resolved to.
pub fn tosocketaddrs_to_sockaddr(addresses: &Vec<SocketAddress>) -> (r: SockAddr)
    requires
        addresses.len() == 1,
    ensures
        is_sockaddr_of(addresses[0], r),
{
    match tosocketaddrs_to_socketaddr(addresses) {
        Ok(a) => socketaddr_to_sockaddr(&a),
        Err(_) => {
            assert(false);
            socketaddr_to_sockaddr(&addresses[0])
        },
    }
}

} // verus!
