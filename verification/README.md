# session_socket

Session-typed channels over Unix-domain and TCP sockets, with the protocol logic
verified by Verus.

The library targets Linux (glibc or musl) on the architectures where
`SOL_SOCKET` is 1, that is all but mips and sparc: the libc constants and
structure sizes that its contracts state (`AF_INET6`, `SOL_SOCKET`, the 108-byte
`sun_path`, the size of `cmsghdr`) are the Linux ones, and differ on macOS and
the BSDs.

- `src/` is the verified library: the session types and their duality (with the
  protocol each type stands for, and the proof that the dual of a dual is the
  original protocol), a transition model of the endpoint operations with the proof
  that dual endpoints stay dual at every step, the bytes a choice puts on the wire
  and how an offer reads them back, the `sockaddr` and `sockaddr_un` encodings, the
  control message that passes a file descriptor, and the judging of system-call
  results.
- `app/` holds what Verus does not check: the system calls through libc, the
  conversions from and to `std::net` and libc types, and the serde/bincode
  transfers of the typed endpoints `UnixEnd` and `TcpEnd`. Those endpoint methods
  follow the transition model only through their type signatures (`send` takes
  `Send<A, P>` to `P`, `enter` pushes the body of `Rec<P>`, and so on); Verus does
  not check them.
- `tests/` runs the library on concrete values.
