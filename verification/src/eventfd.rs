//! The kernel-native counting backend.
//!
//! One kernel counting object holds a saturating, non-negative 64-bit
//! counter. A notify adds 1 to the counter; a wait blocks until the counter
//! is non-zero, then atomically drains it and reports the drained value, so
//! accumulation is exact: two signals before a wait are observed as exactly
//! two. Notifier and waiter each own a distinct descriptor referring to the
//! same counter, so either half can be closed without tearing the other down.

use vstd::prelude::*;
use crate::bytes::u64_of_le;
use crate::bytes::zeroed;
use crate::bytes::u64_from_le;
use crate::bytes::u64_to_le;
use crate::error::Error;
use crate::signal::Notify;
use crate::signal::Unicast;
use crate::signal::Wait;
use crate::sys::sys_close;
use crate::sys::sys_dup_cloexec;
use crate::sys::sys_eventfd_cloexec;
use crate::sys::sys_read;
use crate::sys::sys_write;

verus! {

/// Exclusive owner of one counting-object descriptor.
///
/// A guard either still owns its descriptor or is in the moved-out state
/// after `into_raw_fd` transferred ownership to the caller. Exactly one
/// entity closes the descriptor: the guard on drop, or the caller after a
/// transfer. Using a moved-out guard is a programming error, excluded by
/// precondition rather than checked at run time.
pub struct EventFd(Option<i32>);

impl EventFd {
    /// The descriptor the guard owns, or nothing once it has been moved out.
    pub closed spec fn fd(&self) -> Option<i32> {
        self.0
    }

    /// Whether the guard still owns its descriptor.
    pub open spec fn is_open(&self) -> bool {
        self.fd() is Some
    }

    /// The owned descriptor of an open guard.
    pub open spec fn raw(&self) -> i32
        recommends
            self.is_open(),
    {
        self.fd().unwrap()
    }

    /// Take ownership of `fd`. The caller asserts the descriptor is open and
    /// otherwise unowned; the guard closes it when dropped.
    pub fn from_raw(fd: i32) -> (r: Self)
        ensures
            r.fd() == Some(fd),
    {
        EventFd(Some(fd))
    }

    /// The owned descriptor, ownership unchanged.
    pub fn as_raw_fd(&self) -> (r: i32)
        requires
            self.is_open(),
        ensures
            r == self.raw(),
    {
        self.0.unwrap()
    }

    /// Transfer ownership of the descriptor to the caller and disarm the
    /// guard: it moves to the moved-out state and will no longer close
    /// anything.
    pub fn into_raw_fd(&mut self) -> (r: i32)
        requires
            old(self).is_open(),
        ensures
            r == old(self).raw(),
            !final(self).is_open(),
    {
        let fd = self.0.unwrap();
        self.0 = None;
        fd
    }

    /// Drain the counter: block until it is non-zero, read its eight-byte
    /// value, and return it with the counter reset to zero.
    ///
    /// A read that succeeds with any length other than eight bytes breaks
    /// the counting protocol and is reported as such; a failed read reports
    /// the kernel's error code.
    pub fn read(&self) -> (r: Result<usize, Error>)
        requires
            self.is_open(),
        ensures
            r matches Err(e) ==> (e matches Error::Os(_) || e == Error::Protocol),
    {
        let mut buf: Vec<u8> = zeroed(8);
        match sys_read(self.as_raw_fd(), &mut buf) {
            Ok(count) => counter_value(count, &buf),
            Err(code) => Err(Error::Os(code)),
        }
    }

    /// Add 1 to the counter by writing the eight-byte encoding of 1. A
    /// failed write (the kernel reporting overflow among other causes)
    /// reports the kernel's error code; a write the kernel accepted only
    /// partially breaks the counting protocol and is reported as such.
    pub fn write(&self) -> (r: Result<(), Error>)
        requires
            self.is_open(),
        ensures
            r matches Err(e) ==> (e matches Error::Os(_) || e == Error::Protocol),
    {
        let buf = u64_to_le(1);
        match sys_write(self.as_raw_fd(), buf.as_slice()) {
            Ok(count) => counter_written(count),
            Err(code) => Err(Error::Os(code)),
        }
    }
}

impl Drop for EventFd {
    /// Close the owned descriptor, if any, exactly once; a close failure is
    /// not actionable here and is swallowed.
    fn drop(&mut self)
        opens_invariants none
        no_unwind
    {
        if let Some(fd) = self.0 {
            let _ = sys_close(fd);
        }
    }
}

/// Interpret the outcome of one counter read: exactly eight bytes denote the
/// drained counter value, read little-endian; any other length violates the
/// counting protocol.
pub fn counter_value(count: usize, buf: &Vec<u8>) -> (r: Result<usize, Error>)
    requires
        buf@.len() == 8,
    ensures
        count == 8 ==> r == Ok::<usize, Error>(u64_of_le(buf@) as usize),
        count != 8 ==> r == Err::<usize, Error>(Error::Protocol),
{
    if count != 8 {
        return Err(Error::Protocol);
    }
    let value = u64_from_le(buf);
    Ok(#[verifier::truncate] (value as usize))
}

/// Interpret the outcome of one counter write: only a write of exactly
/// eight bytes is a completed increment; any other accepted length violates
/// the counting protocol.
pub fn counter_written(count: usize) -> (r: Result<(), Error>)
    ensures
        count == 8 ==> r == Ok::<(), Error>(()),
        count != 8 ==> r == Err::<(), Error>(Error::Protocol),
{
    if count == 8 {
        Ok(())
    } else {
        Err(Error::Protocol)
    }
}

/// The signaling half: owns one descriptor of the shared counting object.
pub struct Notifier(EventFd);

impl Notifier {
    /// Whether the inner guard owns a descriptor. Every notifier that
    /// exists at run time owns one: the moved-out guard state never
    /// outlives a method call.
    #[verifier::type_invariant]
    pub closed spec fn well_formed(&self) -> bool {
        self.0.is_open()
    }

    /// The descriptor this notifier signals on.
    pub closed spec fn raw(&self) -> i32 {
        self.0.raw()
    }

    /// The owned descriptor, ownership unchanged.
    pub fn as_raw_fd(&self) -> (r: i32)
        ensures
            r == self.raw(),
    {
        proof {
            use_type_invariant(&*self);
        }
        self.0.as_raw_fd()
    }

    /// Take ownership of `fd`, which the caller asserts is open, otherwise
    /// unowned, and a counting-object descriptor.
    pub fn from_raw(fd: i32) -> (r: Self)
        ensures
            r.raw() == fd,
            r.well_formed(),
    {
        Notifier(EventFd::from_raw(fd))
    }

    /// Transfer ownership of the descriptor to the caller; nothing will be
    /// closed by this half anymore.
    pub fn into_raw_fd(self) -> (r: i32)
        ensures
            r == self.raw(),
    {
        proof {
            use_type_invariant(&self);
        }
        let mut guard = self.0;
        guard.into_raw_fd()
    }
}

/// Law: an open notifier holds nothing but its raw descriptor, so two with
/// the same descriptor are the same notifier. With the `into_raw_fd` and
/// `from_raw` contracts this says extracting a raw descriptor and
/// reconstructing from it restores the original notifier exactly.
pub proof fn lemma_notifier_determined_by_raw_fd(a: Notifier, b: Notifier)
    requires
        a.well_formed(),
        b.well_formed(),
        a.raw() == b.raw(),
    ensures
        a == b,
{
}

impl Unicast for Notifier {
}

impl Notify for Notifier {
    /// Raise the shared counter by 1; exact aggregation with what
    /// accumulated before.
    fn notify(&self) -> (r: Result<(), Error>)
        ensures
            r matches Err(e) ==> (e matches Error::Os(_) || e == Error::Protocol),
    {
        proof {
            use_type_invariant(&*self);
        }
        self.0.write()
    }
}

/// The consuming half: owns one descriptor of the shared counting object.
pub struct Waiter(EventFd);

impl Waiter {
    /// Whether the inner guard owns a descriptor. Every waiter that exists
    /// at run time owns one: the moved-out guard state never outlives a
    /// method call.
    #[verifier::type_invariant]
    pub closed spec fn well_formed(&self) -> bool {
        self.0.is_open()
    }

    /// The descriptor this waiter drains.
    pub closed spec fn raw(&self) -> i32 {
        self.0.raw()
    }

    /// The owned descriptor, ownership unchanged.
    pub fn as_raw_fd(&self) -> (r: i32)
        ensures
            r == self.raw(),
    {
        proof {
            use_type_invariant(&*self);
        }
        self.0.as_raw_fd()
    }

    /// Take ownership of `fd`, which the caller asserts is open, otherwise
    /// unowned, and a counting-object descriptor.
    pub fn from_raw(fd: i32) -> (r: Self)
        ensures
            r.raw() == fd,
            r.well_formed(),
    {
        Waiter(EventFd::from_raw(fd))
    }

    /// Transfer ownership of the descriptor to the caller; nothing will be
    /// closed by this half anymore.
    pub fn into_raw_fd(self) -> (r: i32)
        ensures
            r == self.raw(),
    {
        proof {
            use_type_invariant(&self);
        }
        let mut guard = self.0;
        guard.into_raw_fd()
    }
}

/// Law: an open waiter holds nothing but its raw descriptor, so two with the
/// same descriptor are the same waiter; extracting a raw descriptor and
/// reconstructing from it restores the original waiter exactly.
pub proof fn lemma_waiter_determined_by_raw_fd(a: Waiter, b: Waiter)
    requires
        a.well_formed(),
        b.well_formed(),
        a.raw() == b.raw(),
    ensures
        a == b,
{
}

impl Unicast for Waiter {
}

impl Wait for Waiter {
    /// Block until the shared counter is non-zero, then drain it and return
    /// the exact accumulated count.
    fn wait(&self) -> (r: Result<usize, Error>)
        ensures
            r matches Err(e) ==> (e matches Error::Os(_) || e == Error::Protocol),
    {
        proof {
            use_type_invariant(&*self);
        }
        self.0.read()
    }
}

/// Create a connected pair sharing one kernel counting object with its
/// counter at zero and close-on-exec set on both descriptors. The waiter's
/// descriptor is a duplicate of the notifier's — a distinct number, so the
/// two halves are independently closable and neither close is a double
/// close; the kernel object itself lives until both are closed. On any failure the error code is propagated and nothing leaks: a
/// descriptor already created is closed by its guard.
pub fn pair() -> (r: Result<(Notifier, Waiter), Error>)
    ensures
        r matches Ok(p) ==> 0 <= p.0.raw() < p.1.raw() && p.0.well_formed()
            && p.1.well_formed(),
        r matches Err(e) ==> e matches Error::Os(_),
{
    let w_fd = match sys_eventfd_cloexec() {
        Ok(fd) => fd,
        Err(code) => {
            return Err(Error::Os(code));
        },
    };
    let wr = Notifier(EventFd(Some(w_fd)));

    let r_fd = match sys_dup_cloexec(wr.as_raw_fd(), w_fd) {
        Ok(fd) => fd,
        Err(code) => {
            return Err(Error::Os(code));
        },
    };
    let rd = Waiter(EventFd(Some(r_fd)));

    Ok((wr, rd))
}

} // verus!
