//! Which halves of a connection a shutdown closes.
use vstd::prelude::*;

verus! {

/// The halves of a connection that `shutdown` can close, as in `std::net::Shutdown`.
#[derive(Debug, Copy, Clone, PartialEq, Eq)]
pub enum ShutdownMode {
    Read,
    Write,
    Both,
}

/// `libc::SHUT_RD`; libc defines it as 0 on Linux.
#[verifier::external_body]
fn shut_rd() -> (r: i32)
    ensures
        r == 0,
{
    libc::SHUT_RD
}

/// `libc::SHUT_WR`; libc defines it as 1 on Linux.
#[verifier::external_body]
fn shut_wr() -> (r: i32)
    ensures
        r == 1,
{
    libc::SHUT_WR
}

/// `libc::SHUT_RDWR`; libc defines it as 2 on Linux.
#[verifier::external_body]
fn shut_rdwr() -> (r: i32)
    ensures
        r == 2,
{
    libc::SHUT_RDWR
}

/// The `how` argument of `shutdown` for a mode: `SHUT_RD`, `SHUT_WR` or `SHUT_RDWR`.
pub fn shutdown_how(mode: ShutdownMode) -> (r: i32)
    ensures
        r == match mode {
            ShutdownMode::Read => 0i32,
            ShutdownMode::Write => 1i32,
            ShutdownMode::Both => 2i32,
        },
{
    match mode {
        ShutdownMode::Read => shut_rd(),
        ShutdownMode::Write => shut_wr(),
        ShutdownMode::Both => shut_rdwr(),
    }
}

} // verus!
