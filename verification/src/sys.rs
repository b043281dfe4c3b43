//! Trusted declarations over the raw descriptor operations.
//!
//! Everything the library does to the operating system goes through the
//! wrappers in this module; each states no more of the underlying call than
//! its documentation promises. Descriptors are carried as plain `i32` values,
//! the operating system's own representation; error codes likewise.

use vstd::prelude::*;

verus! {

/// Whether an operating-system error code is the interrupted-call code that
/// a write must absorb and retry.
pub uninterp spec fn interrupt_code(code: i32) -> bool;

/// Relies on `nix::errno::Errno::EINTR`: tells the interrupted-call error
/// code apart from every other code.
#[verifier::external_body]
pub(crate) fn code_is_interrupt(code: i32) -> (r: bool)
    ensures
        r == interrupt_code(code),
{
    code == nix::errno::Errno::EINTR as i32
}

/// Relies on `nix::sys::eventfd::eventfd`: creates a kernel counting object
/// whose counter starts at 0, with close-on-exec set, and returns its
/// (nonnegative) descriptor, or the error code the kernel reported.
#[verifier::external_body]
pub(crate) fn sys_eventfd_cloexec() -> (r: Result<i32, i32>)
    ensures
        r matches Ok(fd) ==> fd >= 0,
{
    match nix::sys::eventfd::eventfd(0, nix::sys::eventfd::EfdFlags::EFD_CLOEXEC) {
        Ok(fd) => Ok(fd),
        Err(e) => Err(e as i32),
    }
}

/// Relies on `nix::fcntl::fcntl` with `F_DUPFD_CLOEXEC`: duplicates `fd`
/// onto the lowest *free* descriptor numbered at least `minfd`, with
/// close-on-exec set. The duplicate refers to the same open object; since
/// `fd` itself is in use, the new number is never `fd`.
#[verifier::external_body]
pub(crate) fn sys_dup_cloexec(fd: i32, minfd: i32) -> (r: Result<i32, i32>)
    ensures
        r matches Ok(nfd) ==> nfd >= minfd && nfd != fd,
{
    match nix::fcntl::fcntl(fd, nix::fcntl::FcntlArg::F_DUPFD_CLOEXEC(minfd)) {
        Ok(nfd) => Ok(nfd),
        Err(e) => Err(e as i32),
    }
}

/// Relies on `nix::unistd::pipe2`: creates an anonymous pipe with
/// close-on-exec set on both ends and returns (read end, write end): two
/// fresh, distinct, nonnegative descriptors; or the error code the kernel
/// reported.
#[verifier::external_body]
pub(crate) fn sys_pipe_cloexec() -> (r: Result<(i32, i32), i32>)
    ensures
        r matches Ok(ends) ==> ends.0 >= 0 && ends.1 >= 0 && ends.0 != ends.1,
{
    match nix::unistd::pipe2(nix::fcntl::OFlag::O_CLOEXEC) {
        Ok((rd, wr)) => Ok((rd, wr)),
        Err(e) => Err(e as i32),
    }
}

/// Relies on `nix::unistd::read`: blocking read from `fd` into `buf`, in
/// place; on success the count read is at most the buffer's length. What the
/// bytes hold depends on the descriptor's kernel object.
#[verifier::external_body]
pub(crate) fn sys_read(fd: i32, buf: &mut Vec<u8>) -> (r: Result<usize, i32>)
    ensures
        final(buf)@.len() == old(buf)@.len(),
        r matches Ok(n) ==> n <= old(buf)@.len(),
{
    match nix::unistd::read(fd, buf.as_mut_slice()) {
        Ok(n) => Ok(n),
        Err(e) => Err(e as i32),
    }
}

/// Relies on `nix::unistd::write`: writes bytes of `buf` to `fd`; on success
/// the count written is at most the buffer's length.
#[verifier::external_body]
pub(crate) fn sys_write(fd: i32, buf: &[u8]) -> (r: Result<usize, i32>)
    ensures
        r matches Ok(n) ==> n <= buf@.len(),
{
    match nix::unistd::write(fd, buf) {
        Ok(n) => Ok(n),
        Err(e) => Err(e as i32),
    }
}

/// Relies on `nix::unistd::close`: closes `fd`. Used on the destruction
/// path, where a failure is not actionable: nothing is claimed of the
/// outcome beyond which side of the `Result` it is on.
#[verifier::external_body]
pub(crate) fn sys_close(fd: i32) -> (r: Result<(), i32>)
    opens_invariants none
    no_unwind
{
    match nix::unistd::close(fd) {
        Ok(()) => Ok(()),
        Err(e) => Err(e as i32),
    }
}

} // verus!
