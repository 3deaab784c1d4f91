//! The failures of socket operations, and the checks that turn system-call
//! results into them.
use vstd::prelude::*;

verus! {

/// Declares `std::io::Error` to Verus, as an opaque type that errors carry.
#[verifier::external_type_specification]
#[verifier::external_body]
pub struct ExIoError(std::io::Error);

/// Why a socket operation failed.
#[derive(Debug)]
pub enum SocketError {
    /// The system call failed; the error is the thread's last OS error.
    Os(std::io::Error),
    /// A Unix socket path of `sun_path`'s length or longer (an invalid-input error).
    PathTooLong,
    /// An address resolved to this many socket addresses where exactly one was
    /// expected (an invalid-input error).
    AddressCount(usize),
    /// A file-descriptor message ended before any byte was read.
    UnexpectedEof,
    /// The control data of a file-descriptor message is shorter than its header.
    BadControlHeader,
    /// The control message is not `SCM_RIGHTS` at level `SOL_SOCKET`.
    BadControlLevel,
    /// The control data does not have the length of one file descriptor's message.
    BadControlLen,
    /// The receive returned neither 0, an error, nor the size of one descriptor.
    BadControlRetCode,
}

/// `std::io::Error::last_os_error`: the error of the calling thread's `errno`. What
/// it holds depends on the last system call, so nothing is stated of it.
#[verifier::external_body]
pub(crate) fn last_os_error() -> std::io::Error {
    std::io::Error::last_os_error()
}

/// Judges the return value of a system call: a negative value is a failure,
/// reported as the last OS error; any other value is returned.
pub fn judgment(val: i32) -> (r: Result<i32, SocketError>)
    ensures
        val < 0 <==> r is Err,
        val < 0 ==> r matches Err(SocketError::Os(_)),
        val >= 0 ==> r == Ok::<i32, SocketError>(val),
{
    if val < 0 {
        Err(SocketError::Os(last_os_error()))
    } else {
        Ok(val)
    }
}

/// The bound on the buffer length of one read or write: the largest `ssize_t`
/// (libc's `ssize_t` is `isize`), the longest transfer that a call can report.
pub fn max_len() -> (r: usize)
    ensures
        r == isize::MAX,
{
    <libc::ssize_t>::MAX as usize
}

/// The number of bytes that one read or write asks for on a buffer of `buf_len`
/// bytes: the buffer's length, bounded by `max_len()`.
pub fn io_request_len(buf_len: usize) -> (r: usize)
    ensures
        r == if buf_len <= isize::MAX { buf_len } else { isize::MAX as usize },
{
    let bound = max_len();
    if buf_len <= bound {
        buf_len
    } else {
        bound
    }
}

/// The outcome of a transfer (`recv`, `send`, `read`, `write` and the like) from
/// its return value: a negative value is the last OS error, any other value the
/// number of bytes moved.
pub fn transfer_result(ret: isize) -> (r: Result<usize, SocketError>)
    ensures
        ret < 0 <==> r matches Err(SocketError::Os(_)),
        ret >= 0 ==> r == Ok::<usize, SocketError>(ret as usize),
{
    if ret < 0 {
        Err(SocketError::Os(last_os_error()))
    } else {
        Ok(ret as usize)
    }
}

/// `num::cast::<usize, u32>`: `Some(n as u32)` where `n` fits in a `u32`, `None`
/// otherwise (num-traits checks `n <= u32::MAX` before the cast).
#[verifier::external_body]
fn num_cast_usize_u32(n: usize) -> (r: Option<u32>)
    ensures
        r == (if n <= u32::MAX { Some(n as u32) } else { None::<u32> }),
{
    num::cast::<usize, u32>(n)
}

/// The `socklen_t` argument for an address structure of `size` bytes, as `bind`
/// and `connect` pass it; `None` where the size does not fit.
pub fn socklen_of(size: usize) -> (r: Option<u32>)
    ensures
        r == (if size <= u32::MAX { Some(size as u32) } else { None::<u32> }),
{
    num_cast_usize_u32(size)
}

} // verus!
