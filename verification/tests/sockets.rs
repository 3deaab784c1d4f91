use session_socket::error::{io_request_len, socklen_of, transfer_result};
use session_socket::fd_passing::{check_fd_message, rights_header, rights_len, rights_space, ControlHeader};
use session_socket::inet::{htonl, htons, ntohl, ntohs, tosocketaddrs_to_sockaddr, SockAddr, SocketAddress};
use session_socket::shutdown::{shutdown_how, ShutdownMode};
use session_socket::unix_addr::{recv_from_status, sockaddr_un, sun_path_offset, SUN_PATH_LEN};
use session_socket::{judgment, max_len, sockaddr_to_socketaddr, socketaddr_to_sockaddr, tosocketaddrs_to_socketaddr, SocketError, UnSocketAddr};

#[test]
fn judgment_passes_non_negative_values() {
    assert_eq!(judgment(0).unwrap(), 0);
    assert_eq!(judgment(7).unwrap(), 7);
    assert!(matches!(judgment(-1), Err(SocketError::Os(_))));
}

#[test]
fn max_len_is_largest_ssize() {
    assert_eq!(max_len(), isize::MAX as usize);
    assert_eq!(io_request_len(10), 10);
    assert_eq!(io_request_len(usize::MAX), isize::MAX as usize);
}

#[test]
fn transfer_results() {
    assert_eq!(transfer_result(0).unwrap(), 0);
    assert_eq!(transfer_result(42).unwrap(), 42);
    assert!(matches!(transfer_result(-1), Err(SocketError::Os(_))));
}

#[test]
fn socklen_checks_range() {
    assert_eq!(socklen_of(16), Some(16));
    assert_eq!(socklen_of(u32::MAX as usize), Some(u32::MAX));
    assert_eq!(socklen_of(u32::MAX as usize + 1), None);
}

#[test]
fn byte_order() {
    assert_eq!(htons(8080), [0x1f, 0x90]);
    assert_eq!(ntohs([0x1f, 0x90]), 8080);
    assert_eq!(htonl(0x7f000001), [127, 0, 0, 1]);
    assert_eq!(ntohl([127, 0, 0, 1]), 0x7f000001);
    assert_eq!(ntohs(htons(0xabcd)), 0xabcd);
    assert_eq!(ntohl(htonl(0xdeadbeef)), 0xdeadbeef);
}

#[test]
fn ipv4_sockaddr_layout() {
    let a = SocketAddress::V4 { ip: [127, 0, 0, 1], port: 8080 };
    let sa = socketaddr_to_sockaddr(&a);
    assert_eq!(sa.family, libc::AF_INET as u16);
    assert_eq!(sa.data, [0x1f, 0x90, 127, 0, 0, 1, 0, 0, 0, 0, 0, 0, 0, 0]);
}

#[test]
fn ipv4_sockaddr_roundtrip() {
    let a = SocketAddress::V4 { ip: [192, 168, 1, 20], port: 8081 };
    assert_eq!(sockaddr_to_socketaddr(&socketaddr_to_sockaddr(&a)), a);
}

#[test]
fn ipv6_sockaddr_truncates() {
    let ip = [0xfe, 0x80, 0, 0, 0, 0, 0, 1, 2, 3, 4, 5, 6, 7, 8, 9];
    let a = SocketAddress::V6 { ip, port: 443, flowinfo: 0x01020304, scope_id: 5 };
    let sa = socketaddr_to_sockaddr(&a);
    assert_eq!(sa.family, libc::AF_INET6 as u16);
    assert_eq!(&sa.data[0..2], &[0x01, 0xbb]);
    assert_eq!(&sa.data[2..6], &0x01020304u32.to_ne_bytes());
    assert_eq!(&sa.data[6..14], &ip[0..8]);
}

#[test]
fn sockaddr_decodes_ipv4() {
    let sa = SockAddr { family: 2, data: [0x00, 0x50, 10, 0, 0, 7, 0, 0, 0, 0, 0, 0, 0, 0] };
    assert_eq!(sockaddr_to_socketaddr(&sa), SocketAddress::V4 { ip: [10, 0, 0, 7], port: 80 });
}

#[test]
fn exactly_one_address_is_taken() {
    let a = SocketAddress::V4 { ip: [127, 0, 0, 1], port: 1 };
    let b = SocketAddress::V4 { ip: [127, 0, 0, 2], port: 2 };
    assert_eq!(tosocketaddrs_to_socketaddr(&vec![a]).unwrap(), a);
    assert!(matches!(tosocketaddrs_to_socketaddr(&vec![]), Err(SocketError::AddressCount(0))));
    assert!(matches!(tosocketaddrs_to_socketaddr(&vec![a, b]), Err(SocketError::AddressCount(2))));
    assert_eq!(tosocketaddrs_to_sockaddr(&vec![a]), socketaddr_to_sockaddr(&a));
}

#[test]
fn unix_path_address() {
    assert_eq!(sun_path_offset(), 2);
    let (addr, len) = sockaddr_un(b"unixsocket").unwrap();
    assert_eq!(addr.family, libc::AF_UNIX as u16);
    assert_eq!(&addr.path[0..10], b"unixsocket");
    assert!(addr.path[10..].iter().all(|b| *b == 0));
    assert_eq!(len, 2 + 10 + 1);
}

#[test]
fn unix_abstract_and_empty_paths_have_no_terminator() {
    let (_, len) = sockaddr_un(b"\0abstract").unwrap();
    assert_eq!(len, 2 + 9);
    let (_, len) = sockaddr_un(b"").unwrap();
    assert_eq!(len, 2);
}

#[test]
fn unix_path_too_long() {
    let long = vec![b'a'; SUN_PATH_LEN];
    assert!(matches!(sockaddr_un(&long), Err(SocketError::PathTooLong)));
    let longest = vec![b'a'; SUN_PATH_LEN - 1];
    let (addr, len) = sockaddr_un(&longest).unwrap();
    assert_eq!(len, 2 + 107 + 1);
    assert_eq!(addr.path[107], 0);
}

#[test]
fn unix_reported_address() {
    let (addr, _) = sockaddr_un(b"s").unwrap();
    let a = UnSocketAddr::new(0, addr, 0).unwrap();
    assert_eq!(a.len, 2);
    let a = UnSocketAddr::new(3, addr, 5).unwrap();
    assert_eq!(a.len, 5);
    assert!(matches!(UnSocketAddr::new(-1, addr, 5), Err(SocketError::Os(_))));
}

#[test]
fn recv_from_statuses() {
    assert_eq!(recv_from_status(-1), 1);
    assert_eq!(recv_from_status(0), 0);
    assert_eq!(recv_from_status(12), -1);
}

#[test]
fn shutdown_modes() {
    assert_eq!(shutdown_how(ShutdownMode::Read), libc::SHUT_RD);
    assert_eq!(shutdown_how(ShutdownMode::Write), libc::SHUT_WR);
    assert_eq!(shutdown_how(ShutdownMode::Both), libc::SHUT_RDWR);
}

fn space() -> usize {
    let align = std::mem::size_of::<usize>();
    std::mem::size_of::<libc::cmsghdr>() + (4 + align - 1) / align * align
}

#[test]
fn rights_message_lengths() {
    assert_eq!(rights_space(), space());
    assert_eq!(rights_len(), std::mem::size_of::<libc::cmsghdr>() + 4);
    if std::mem::size_of::<usize>() == 8 {
        assert_eq!(rights_space(), 24);
        assert_eq!(rights_len(), 20);
    }
}

#[test]
fn sent_fd_message_is_accepted() {
    let header = rights_header();
    assert_eq!(header, ControlHeader { len: rights_len(), level: libc::SOL_SOCKET, kind: libc::SCM_RIGHTS });
    assert!(check_fd_message(4, space(), header).is_ok());
}

#[test]
fn fd_message_errors() {
    let header = rights_header();
    assert!(matches!(check_fd_message(0, space(), header), Err(SocketError::UnexpectedEof)));
    assert!(matches!(check_fd_message(-1, space(), header), Err(SocketError::Os(_))));
    assert!(matches!(check_fd_message(8, space(), header), Err(SocketError::BadControlRetCode)));
    assert!(matches!(check_fd_message(4, 3, header), Err(SocketError::BadControlHeader)));
    let wrong = ControlHeader { len: 0, level: 0, kind: libc::SCM_RIGHTS };
    assert!(matches!(check_fd_message(4, space(), wrong), Err(SocketError::BadControlLevel)));
    assert!(matches!(check_fd_message(4, space() + 8, header), Err(SocketError::BadControlLen)));
}
