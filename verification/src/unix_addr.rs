//! Unix-domain socket addresses (`sockaddr_un`).
use vstd::prelude::*;
use crate::error::{judgment, SocketError};

verus! {

broadcast use vstd::layout::group_layout_axioms;

/// The length of `sun_path` in `libc::sockaddr_un` on Linux.
pub const SUN_PATH_LEN: usize = 108;

/// A Unix-domain socket address, laid out as `libc::sockaddr_un`: the address
/// family, then the path bytes, padded with zeros.
#[derive(Debug, Copy, Clone)]
pub struct SockAddrUn {
    pub family: u16,
    pub path: [u8; 108],
}

/// `std::mem::size_of::<libc::sockaddr_un>()`: libc declares the struct as a
/// `sa_family_t` (two bytes) followed by `[c_char; 108]`, 110 bytes with no padding.
#[verifier::external_body]
fn size_of_sockaddr_un() -> (r: usize)
    ensures
        r == 110,
{
    core::mem::size_of::<libc::sockaddr_un>()
}

/// `libc::AF_UNIX`, the Unix-domain address family; libc defines it as 1 on Linux.
#[verifier::external_body]
fn af_unix() -> (r: i32)
    ensures
        r == 1,
{
    libc::AF_UNIX
}

/// The offset of `sun_path` in `sockaddr_un`: its size less that of `sun_path`.
pub fn sun_path_offset() -> (r: usize)
    ensures
        r == 2,
{
    let family_size = core::mem::size_of::<libc::sa_family_t>();
    let path_size = size_of_sockaddr_un() - family_size;
    size_of_sockaddr_un() - path_size
}

/// The `sun_path` that holds `path`: its bytes, then zeros up to `SUN_PATH_LEN`.
pub open spec fn sun_path_of(path: Seq<u8>) -> Seq<u8> {
    path + Seq::new((SUN_PATH_LEN - path.len()) as nat, |i: int| 0u8)
}

/// The address length passed with a `sockaddr_un` for `path`: the offset of
/// `sun_path`, the path, and its terminating zero byte where the path is not
/// abstract (empty, or starting with a zero byte).
pub open spec fn sun_len_of(path: Seq<u8>) -> nat {
    2 + path.len() + if path.len() > 0 && path[0] != 0 { 1nat } else { 0nat }
}

/// The `sun_path` of a path that fits holds every byte of the path at its own index,
/// a leading zero byte (an abstract address) included, and zeros after it; the
/// address length counts the family, the path, and a terminator for a path that is
/// neither empty nor abstract.
pub proof fn lemma_sun_path_holds_path(path: Seq<u8>)
    requires
        path.len() < SUN_PATH_LEN,
    ensures
        sun_path_of(path).len() == SUN_PATH_LEN,
        sun_path_of(path).take(path.len() as int) == path,
        forall|i: int| 0 <= i < path.len() ==> #[trigger] sun_path_of(path)[i] == path[i],
        forall|i: int| path.len() <= i < SUN_PATH_LEN ==> #[trigger] sun_path_of(path)[i] == 0,
        sun_len_of(path) == 2 + path.len() + (if path.len() > 0 && path[0] != 0 { 1int } else { 0int }),
{
    assert(sun_path_of(path).take(path.len() as int) =~= path);
}

/// Builds the Unix-domain socket address of a path. A path of `SUN_PATH_LEN` bytes
/// or more is refused; otherwise the address holds the path, zero-padded, with the
/// length that `bind`, `connect` and `sendto` take.
pub fn sockaddr_un(path: &[u8]) -> (r: Result<(SockAddrUn, u32), SocketError>)
    ensures
        path.len() < SUN_PATH_LEN <==> r is Ok,
        path.len() >= SUN_PATH_LEN ==> r matches Err(SocketError::PathTooLong),
        r matches Ok((addr, len)) ==> {
            &&& addr.family == 1
            &&& addr.path@ == sun_path_of(path@)
            &&& len == sun_len_of(path@)
            &&& forall|i: int| 0 <= i < path.len() ==> addr.path[i] == path[i]
            &&& forall|i: int| path.len() <= i < SUN_PATH_LEN ==> addr.path[i] == 0
            &&& len == 2 + path.len() + (if path.len() > 0 && path[0] != 0 { 1int } else { 0int })
        },
{
    if path.len() >= SUN_PATH_LEN {
        return Err(SocketError::PathTooLong);
    }
    let mut sun_path = [0u8; 108];
    let mut i: usize = 0;
    while i < path.len()
        invariant
            i <= path.len() < SUN_PATH_LEN,
            sun_path@ == path@.take(i as int) + Seq::new((SUN_PATH_LEN - i) as nat, |j: int| 0u8),
        decreases path.len() - i,
    {
        sun_path[i] = path[i];
        i = i + 1;
        assert(sun_path@ =~= path@.take(i as int) + Seq::new((SUN_PATH_LEN - i) as nat, |j: int| 0u8));
    }
    assert(path@.take(path.len() as int) =~= path@);
    proof {
        lemma_sun_path_holds_path(path@);
    }
    let mut len = sun_path_offset() + path.len();
    if path.len() > 0 && path[0] != 0 {
        len = len + 1;
    }
    Ok((SockAddrUn { family: af_unix() as u16, path: sun_path }, len as u32))
}

/// The address of a Unix-domain socket as the kernel reported it.
#[derive(Debug, Copy, Clone)]
pub struct UnSocketAddr {
    pub address: SockAddrUn,
    pub len: u32,
}

impl UnSocketAddr {
    /// The address that a call such as `accept` or `getsockname` filled in, from
    /// the call's return value: a negative value is the last OS error. A length of 0
    /// (an unnamed socket) is reported as the offset of `sun_path`.
    pub fn new(ret: i32, address: SockAddrUn, len: u32) -> (r: Result<UnSocketAddr, SocketError>)
        ensures
            ret < 0 <==> r matches Err(SocketError::Os(_)),
            ret >= 0 ==> r is Ok,
            r matches Ok(a) ==> a.address == address && a.len == if len == 0 { 2 } else { len },
    {
        match judgment(ret) {
            Err(e) => Err(e),
            Ok(_) => {
                let mut len = len;
                if len == 0 {
                    len = sun_path_offset() as u32;
                }
                Ok(UnSocketAddr { address, len })
            },
        }
    }
}

/// The status that `recv_from` reports for the address it was given, from the
/// count that `recvfrom` returned: 1 for a failed receive, 0 for an empty one, and
/// -1 once bytes arrived (which `UnSocketAddr::new` then judges a failure).
pub fn recv_from_status(result: isize) -> (r: i32)
    ensures
        r == if result < 0 { 1i32 } else if result == 0 { 0i32 } else { -1i32 },
{
    if result < 0 {
        1
    } else if result == 0 {
        0
    } else {
        -1
    }
}

} // verus!
