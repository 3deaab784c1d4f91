//! Passing a file descriptor over a Unix-domain socket: the control message that
//! carries it, and the checks on a received one.
use vstd::prelude::*;
use crate::error::{last_os_error, SocketError};

verus! {

broadcast use vstd::layout::group_layout_axioms;

/// `libc::SOL_SOCKET`, the socket level of control messages; 1 on Linux (but for
/// mips and sparc, which this crate does not target).
#[verifier::external_body]
fn sol_socket() -> (r: i32)
    ensures
        r == 1,
{
    libc::SOL_SOCKET
}

/// `libc::SCM_RIGHTS`, the control message type that passes descriptors; 1 on Linux.
#[verifier::external_body]
fn scm_rights() -> (r: i32)
    ensures
        r == 1,
{
    libc::SCM_RIGHTS
}

/// `std::mem::size_of::<libc::cmsghdr>()`: libc declares the header as a length of
/// the size of `usize` (`size_t`, or `socklen_t` and padding on musl) followed by
/// two `c_int`s.
#[verifier::external_body]
fn size_of_cmsghdr() -> (r: usize)
    ensures
        r == vstd::layout::size_of::<usize>() + 8,
{
    core::mem::size_of::<libc::cmsghdr>()
}

/// The size of a `usize`, to whose multiples control data is aligned.
pub open spec fn word() -> int {
    vstd::layout::size_of::<usize>() as int
}

/// libc's `CMSG_ALIGN`: `len` rounded up to a multiple of the size of a `usize`.
pub open spec fn cmsg_aligned(len: int) -> int {
    (len + word() - 1) / word() * word()
}

/// libc's `CMSG_LEN` for one `c_int` of data: the aligned header, then the data.
pub open spec fn rights_len_spec() -> int {
    cmsg_aligned(word() + 8) + 4
}

/// libc's `CMSG_SPACE` for one `c_int` of data: the aligned header and the aligned
/// data.
pub open spec fn rights_space_spec() -> int {
    cmsg_aligned(4) + cmsg_aligned(word() + 8)
}

/// A `usize` is four or eight bytes wide, which fixes the aligned sizes of a
/// `c_int` and of a header.
proof fn lemma_word()
    ensures
        word() == 4 || word() == 8,
        word() == 4 ==> cmsg_aligned(4) == 4 && cmsg_aligned(word() + 8) == 12,
        word() == 8 ==> cmsg_aligned(4) == 8 && cmsg_aligned(word() + 8) == 16,
{
    assert(usize::BITS == 32 || usize::BITS == 64);
}

/// `CMSG_ALIGN` rounds up to the next multiple of the size of a `usize`: the result
/// is such a multiple, no smaller than `len`, and less than a word above it.
pub proof fn lemma_cmsg_aligned_rounds_up(len: int)
    requires
        len >= 0,
    ensures
        cmsg_aligned(len) % word() == 0,
        len <= cmsg_aligned(len) < len + word(),
{
    lemma_word();
    let w = word();
    assert((len + w - 1) / w * w % w == 0 && len <= (len + w - 1) / w * w < len + w) by (nonlinear_arith)
        requires w == 4 || w == 8, len >= 0;
}

/// `CMSG_ALIGN`: rounds `len` up to a multiple of the size of a `usize` (libc
/// computes it with a mask, which is the same for that power of two).
fn cmsg_align(len: usize) -> (r: usize)
    requires
        len <= 64,
    ensures
        r == cmsg_aligned(len as int),
        r <= len + 7,
{
    proof {
        lemma_word();
    }
    let w = core::mem::size_of::<usize>();
    (len + w - 1) / w * w
}

/// `CMSG_LEN` of the size of a `c_int`: the length field of the header of a
/// message that passes one descriptor (16 + 4 where a `usize` is eight bytes).
pub fn rights_len() -> (r: usize)
    ensures
        r == rights_len_spec(),
        word() == 8 ==> r == 20,
        word() == 4 ==> r == 16,
{
    proof {
        lemma_word();
    }
    cmsg_align(size_of_cmsghdr()) + core::mem::size_of::<i32>()
}

/// `CMSG_SPACE` of the size of a `c_int`: the control length of a message that
/// passes one descriptor (16 + 8 where a `usize` is eight bytes).
pub fn rights_space() -> (r: usize)
    ensures
        r == rights_space_spec(),
        word() == 8 ==> r == 24,
        word() == 4 ==> r == 16,
{
    proof {
        lemma_word();
    }
    cmsg_align(core::mem::size_of::<i32>()) + cmsg_align(size_of_cmsghdr())
}

/// The header of a control message.
#[derive(Debug, Copy, Clone, PartialEq, Eq)]
pub struct ControlHeader {
    pub len: usize,
    pub level: i32,
    pub kind: i32,
}

/// The header of the control message that passes one descriptor: `SCM_RIGHTS` at
/// level `SOL_SOCKET`, of length `CMSG_LEN` of the size of a `c_int`.
pub fn rights_header() -> (r: ControlHeader)
    ensures
        r == (ControlHeader { len: rights_len_spec() as usize, level: 1, kind: 1 }),
{
    ControlHeader { len: rights_len(), level: sol_socket(), kind: scm_rights() }
}

/// How a received descriptor message is judged.
#[derive(Debug, Copy, Clone, PartialEq, Eq)]
pub enum FdCheck {
    /// The message carries one descriptor.
    Accepted,
    /// Nothing was received.
    Eof,
    /// The receive failed.
    OsError,
    /// The control data is shorter than a header.
    ShortHeader,
    /// The header is not `SCM_RIGHTS` at level `SOL_SOCKET`.
    WrongLevel,
    /// The control data is not one descriptor's message long.
    WrongLen,
    /// The receive returned another count than the size of a `c_int`.
    WrongRetCode,
}

/// The judgment of a received descriptor message from `recvmsg`'s return value
/// `received`, the control length `controllen`, and the header's level and type:
/// the receive must return the size of a `c_int`, the control data must hold a
/// header (of `word() + 8` bytes), be `SCM_RIGHTS` at level `SOL_SOCKET`, and be
/// `CMSG_SPACE` of the size of a `c_int` long.
pub open spec fn fd_message_check(received: int, controllen: int, level: i32, kind: i32) -> FdCheck {
    if received == 0 {
        FdCheck::Eof
    } else if received < 0 {
        FdCheck::OsError
    } else if received == 4 {
        if controllen < word() + 8 {
            FdCheck::ShortHeader
        } else if level != 1 || kind != 1 {
            FdCheck::WrongLevel
        } else if controllen != rights_space_spec() {
            FdCheck::WrongLen
        } else {
            FdCheck::Accepted
        }
    } else {
        FdCheck::WrongRetCode
    }
}

/// `r` is the result that reports the judgment `c`.
pub open spec fn reports(r: Result<(), SocketError>, c: FdCheck) -> bool {
    match c {
        FdCheck::Accepted => r is Ok,
        FdCheck::Eof => r matches Err(SocketError::UnexpectedEof),
        FdCheck::OsError => r matches Err(SocketError::Os(_)),
        FdCheck::ShortHeader => r matches Err(SocketError::BadControlHeader),
        FdCheck::WrongLevel => r matches Err(SocketError::BadControlLevel),
        FdCheck::WrongLen => r matches Err(SocketError::BadControlLen),
        FdCheck::WrongRetCode => r matches Err(SocketError::BadControlRetCode),
    }
}

/// Checks a received descriptor message before its descriptor is read: the
/// receive must have returned the size of a `c_int`, and the control data must be
/// one `SCM_RIGHTS` message at level `SOL_SOCKET` of `CMSG_SPACE` bytes.
pub fn check_fd_message(received: isize, controllen: usize, header: ControlHeader) -> (r: Result<(), SocketError>)
    ensures
        reports(r, fd_message_check(received as int, controllen as int, header.level, header.kind)),
        r is Ok <==> {
            &&& received == 4
            &&& header.level == 1
            &&& header.kind == 1
            &&& controllen == rights_space_spec()
        },
        received == 0 ==> r matches Err(SocketError::UnexpectedEof),
        received < 0 ==> r matches Err(SocketError::Os(_)),
        received > 0 && received != 4 ==> r matches Err(SocketError::BadControlRetCode),
        received == 4 && controllen < word() + 8 ==> r matches Err(SocketError::BadControlHeader),
        received == 4 && controllen >= word() + 8 && (header.level != 1 || header.kind != 1)
            ==> r matches Err(SocketError::BadControlLevel),
{
    proof {
        lemma_fd_message_accepted_only_rights(received as int, controllen as int, header.level, header.kind);
    }
    if received == 0 {
        Err(SocketError::UnexpectedEof)
    } else if received < 0 {
        Err(SocketError::Os(last_os_error()))
    } else if received == core::mem::size_of::<i32>() as isize {
        if controllen < size_of_cmsghdr() {
            return Err(SocketError::BadControlHeader);
        }
        if header.level != sol_socket() || header.kind != scm_rights() {
            return Err(SocketError::BadControlLevel);
        }
        if controllen != rights_space() {
            return Err(SocketError::BadControlLen);
        }
        Ok(())
    } else {
        Err(SocketError::BadControlRetCode)
    }
}

/// A received message is accepted exactly when the receive returned the size of
/// one `c_int` and the control data is one `SCM_RIGHTS` message (type 1) at level
/// `SOL_SOCKET` (1) of `CMSG_SPACE` bytes; any other level or type is refused as
/// a bad level, once the control data holds a header.
pub proof fn lemma_fd_message_accepted_only_rights(received: int, controllen: int, level: i32, kind: i32)
    ensures
        fd_message_check(received, controllen, level, kind) == FdCheck::Accepted <==> {
            &&& received == 4
            &&& level == 1
            &&& kind == 1
            &&& controllen == rights_space_spec()
        },
        received == 4 && controllen >= word() + 8 && (level != 1 || kind != 1)
            ==> fd_message_check(received, controllen, level, kind) == FdCheck::WrongLevel,
        received == 0 ==> fd_message_check(received, controllen, level, kind) == FdCheck::Eof,
        received < 0 ==> fd_message_check(received, controllen, level, kind) == FdCheck::OsError,
        received > 0 && received != 4 ==> fd_message_check(received, controllen, level, kind)
            == FdCheck::WrongRetCode,
        received == 4 && controllen < word() + 8 ==> fd_message_check(received, controllen, level, kind)
            == FdCheck::ShortHeader,
{
    lemma_word();
}

/// The message that `send_fd` builds (one `c_int` of data, the `rights_header`, and
/// a control length of `rights_space`) passes the checks of `recv_fd`.
pub proof fn lemma_sent_fd_message_accepted()
    ensures
        fd_message_check(4, rights_space_spec(), 1, 1) == FdCheck::Accepted,
{
    lemma_word();
}

} // verus!
