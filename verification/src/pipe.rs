//! The byte-accumulation (pipe) backend.
//!
//! An anonymous pipe stands in for a counter on systems without a kernel
//! counting object: a notify appends one byte to the pipe, and a wait blocks
//! until at least one byte is there, then drains up to its read-buffer
//! length of bytes and reports how many it got. Accumulation is therefore
//! approximate by design: if more signals than the buffer length arrive
//! between waits, one wait observes at most the buffer length of them and a
//! later wait drains the remainder. The notify path absorbs interrupted-call
//! errors by retrying the unwritten remainder; every other error propagates.

use vstd::prelude::*;
use vstd::slice::slice_subrange;
use crate::bytes::zeroed;
use crate::error::Error;
use crate::signal::Notify;
use crate::signal::Unicast;
use crate::signal::Wait;
use crate::sys::code_is_interrupt;
use crate::sys::interrupt_code;
use crate::sys::sys_close;
use crate::sys::sys_pipe_cloexec;
use crate::sys::sys_read;
use crate::sys::sys_write;

verus! {

/// The read-buffer length a waiter starts with.
pub const DEFAULT_BUFFER_SIZE: usize = 64;

/// Exclusive owner of one pipe-end descriptor.
///
/// A guard either still owns its descriptor or is in the moved-out state
/// after `into_raw_fd` transferred ownership to the caller. Exactly one
/// entity closes the descriptor: the guard on drop, or the caller after a
/// transfer. Using a moved-out guard is a programming error, excluded by
/// precondition rather than checked at run time.
pub struct Pipe(Option<i32>);

impl Pipe {
    /// The descriptor the guard owns, or nothing once it has been moved out.
    pub closed spec fn fd(&self) -> Option<i32> {
        self.0
    }

    /// Whether the guard still owns its descriptor.
    pub open spec fn is_open(&self) -> bool {
        self.fd() is Some
    }

    /// The owned descriptor of an open guard.
    pub open spec fn raw(&self) -> i32
        recommends
            self.is_open(),
    {
        self.fd().unwrap()
    }

    /// Take ownership of `fd`. The caller asserts the descriptor is open and
    /// otherwise unowned; the guard closes it when dropped.
    pub fn from_raw(fd: i32) -> (r: Self)
        ensures
            r.fd() == Some(fd),
    {
        Pipe(Some(fd))
    }

    /// The owned descriptor, ownership unchanged.
    pub fn as_raw_fd(&self) -> (r: i32)
        requires
            self.is_open(),
        ensures
            r == self.raw(),
    {
        self.0.unwrap()
    }

    /// Transfer ownership of the descriptor to the caller and disarm the
    /// guard: it moves to the moved-out state and will no longer close
    /// anything.
    pub fn into_raw_fd(&mut self) -> (r: i32)
        requires
            old(self).is_open(),
        ensures
            r == old(self).raw(),
            !final(self).is_open(),
    {
        let fd = self.0.unwrap();
        self.0 = None;
        fd
    }

    /// Blocking read from the pipe into `buf`, in place; on success the
    /// count read is at most the buffer's length, and a failed read reports
    /// the kernel's error code.
    pub fn read(&self, buf: &mut Vec<u8>) -> (r: Result<usize, Error>)
        requires
            self.is_open(),
        ensures
            final(buf)@.len() == old(buf)@.len(),
            r matches Ok(n) ==> n <= old(buf)@.len(),
            r matches Err(e) ==> e matches Error::Os(_),
    {
        match sys_read(self.as_raw_fd(), buf) {
            Ok(n) => Ok(n),
            Err(code) => Err(Error::Os(code)),
        }
    }

    /// Write all of `buf` to the pipe, re-issuing the write for the
    /// unwritten remainder whenever the kernel reports an interrupted call.
    /// Any other operating-system error is surfaced immediately, so an
    /// operating-system error that comes out is never the interrupted-call
    /// code.
    ///
    /// So that termination is a theorem, the calls that make no progress
    /// (an interrupted call, or a write accepting zero bytes) draw on a
    /// budget wide enough to never run out in practice; a drained budget
    /// means the descriptor has stopped behaving like a pipe and is
    /// reported as a protocol violation.
    pub fn write_all(&self, buf: &[u8]) -> (r: Result<(), Error>)
        requires
            self.is_open(),
        ensures
            r matches Err(e) ==> ((e matches Error::Os(code) && !interrupt_code(code)) || e
                == Error::Protocol),
    {
        let mut written: usize = 0;
        let mut budget: usize = usize::MAX;
        loop
            invariant
                self.is_open(),
                written <= buf@.len(),
            decreases buf@.len() - written, budget,
        {
            let rest = slice_subrange(buf, written, buf.len());
            let mut progress = false;
            match sys_write(self.as_raw_fd(), rest) {
                Ok(n) => {
                    if n > 0 {
                        written = written + n;
                        progress = true;
                    }
                },
                Err(code) => {
                    if !code_is_interrupt(code) {
                        return Err(Error::Os(code));
                    }
                },
            }

            if written == buf.len() {
                break;
            }
            if !progress {
                if budget == 0 {
                    return Err(Error::Protocol);
                }
                budget = budget - 1;
            }
        }

        Ok(())
    }
}

impl Drop for Pipe {
    /// Close the owned descriptor, if any, exactly once; a close failure is
    /// not actionable here and is swallowed.
    fn drop(&mut self)
        opens_invariants none
        no_unwind
    {
        if let Some(fd) = self.0 {
            let _ = sys_close(fd);
        }
    }
}

/// The signaling half: owns the write end of the pipe.
pub struct Notifier(Pipe);

impl Notifier {
    /// Whether the inner guard owns a descriptor. Every notifier that
    /// exists at run time owns one: the moved-out guard state never
    /// outlives a method call.
    #[verifier::type_invariant]
    pub closed spec fn well_formed(&self) -> bool {
        self.0.is_open()
    }

    /// The descriptor this notifier signals on.
    pub closed spec fn raw(&self) -> i32 {
        self.0.raw()
    }

    /// The owned descriptor, ownership unchanged.
    pub fn as_raw_fd(&self) -> (r: i32)
        ensures
            r == self.raw(),
    {
        proof {
            use_type_invariant(&*self);
        }
        self.0.as_raw_fd()
    }

    /// Take ownership of `fd`, which the caller asserts is open, otherwise
    /// unowned, and a pipe write end.
    pub fn from_raw(fd: i32) -> (r: Self)
        ensures
            r.raw() == fd,
            r.well_formed(),
    {
        Notifier(Pipe::from_raw(fd))
    }

    /// Transfer ownership of the descriptor to the caller; nothing will be
    /// closed by this half anymore.
    pub fn into_raw_fd(self) -> (r: i32)
        ensures
            r == self.raw(),
    {
        proof {
            use_type_invariant(&self);
        }
        let mut guard = self.0;
        guard.into_raw_fd()
    }
}

/// Law: an open notifier holds nothing but its raw descriptor, so two with
/// the same descriptor are the same notifier. With the `into_raw_fd` and
/// `from_raw` contracts this says extracting a raw descriptor and
/// reconstructing from it restores the original notifier exactly.
pub proof fn lemma_notifier_determined_by_raw_fd(a: Notifier, b: Notifier)
    requires
        a.well_formed(),
        b.well_formed(),
        a.raw() == b.raw(),
    ensures
        a == b,
{
}

impl Unicast for Notifier {
}

impl Notify for Notifier {
    /// Append one byte (of irrelevant value) to the pipe, retrying
    /// interrupted writes; an operating-system error that comes out is
    /// never the interrupted-call code.
    fn notify(&self) -> (r: Result<(), Error>)
        ensures
            r matches Err(e) ==> ((e matches Error::Os(code) && !interrupt_code(code)) || e
                == Error::Protocol),
    {
        proof {
            use_type_invariant(&*self);
        }
        let mut buf: Vec<u8> = Vec::new();
        buf.push(1);
        self.0.write_all(buf.as_slice())
    }
}

/// The consuming half: owns the read end of the pipe, plus the adjustable
/// read-buffer length that caps how many accumulated signals one wait can
/// observe.
pub struct Waiter {
    pipe: Pipe,
    buf_sz: usize,
}

impl Waiter {
    /// Whether the inner guard owns a descriptor. Every waiter that exists
    /// at run time owns one: the moved-out guard state never outlives a
    /// method call.
    #[verifier::type_invariant]
    pub closed spec fn well_formed(&self) -> bool {
        self.pipe.is_open()
    }

    /// The descriptor this waiter drains.
    pub closed spec fn raw(&self) -> i32 {
        self.pipe.raw()
    }

    /// The current read-buffer length.
    pub closed spec fn buf_len(&self) -> usize {
        self.buf_sz
    }

    /// Set the read-buffer length: one wait will observe at most `len`
    /// accumulated signals from then on. The descriptor is untouched.
    pub fn set_buffer_len(&mut self, len: usize)
        ensures
            final(self).buf_len() == len,
            final(self).raw() == old(self).raw(),
            final(self).well_formed() == old(self).well_formed(),
    {
        proof {
            use_type_invariant(&*self);
        }
        self.buf_sz = len;
    }

    /// The current read-buffer length.
    pub fn buffer_len(&self) -> (r: usize)
        ensures
            r == self.buf_len(),
    {
        self.buf_sz
    }

    /// The owned descriptor, ownership unchanged.
    pub fn as_raw_fd(&self) -> (r: i32)
        ensures
            r == self.raw(),
    {
        proof {
            use_type_invariant(&*self);
        }
        self.pipe.as_raw_fd()
    }

    /// Take ownership of `fd`, which the caller asserts is open, otherwise
    /// unowned, and a pipe read end; the read-buffer length starts at its
    /// default.
    pub fn from_raw(fd: i32) -> (r: Self)
        ensures
            r.raw() == fd,
            r.buf_len() == DEFAULT_BUFFER_SIZE,
            r.well_formed(),
    {
        Waiter { pipe: Pipe::from_raw(fd), buf_sz: DEFAULT_BUFFER_SIZE }
    }

    /// Transfer ownership of the descriptor to the caller; nothing will be
    /// closed by this half anymore.
    pub fn into_raw_fd(self) -> (r: i32)
        ensures
            r == self.raw(),
    {
        proof {
            use_type_invariant(&self);
        }
        let mut guard = self.pipe;
        guard.into_raw_fd()
    }
}

/// Law: an open waiter holds exactly its raw descriptor and its read-buffer
/// length, so two waiters agreeing on both are the same waiter. With the
/// `into_raw_fd` and `from_raw` contracts this says extracting a raw
/// descriptor and reconstructing from it restores the original waiter
/// exactly whenever the original still had the default read-buffer length.
pub proof fn lemma_waiter_determined_by_raw_fd(a: Waiter, b: Waiter)
    requires
        a.well_formed(),
        b.well_formed(),
        a.raw() == b.raw(),
        a.buf_len() == b.buf_len(),
    ensures
        a == b,
{
}

impl Unicast for Waiter {
}

impl Wait for Waiter {
    /// Block until the pipe holds at least one byte, then drain up to the
    /// read-buffer length of bytes and report how many were drained: at most
    /// the read-buffer length, however many signals accumulated.
    fn wait(&self) -> (r: Result<usize, Error>)
        ensures
            r matches Ok(n) ==> n <= self.buf_len(),
            r matches Err(e) ==> e matches Error::Os(_),
    {
        proof {
            use_type_invariant(&*self);
        }
        let mut buf = zeroed(self.buf_sz);
        self.pipe.read(&mut buf)
    }
}

/// Create a connected pair: the two ends of one fresh anonymous pipe with
/// close-on-exec set, the write end behind the notifier and the read end
/// behind the waiter with the default read-buffer length. The two
/// descriptors are distinct, so each half's single close is its own. On
/// failure the error code is propagated and nothing leaks.
pub fn pair() -> (r: Result<(Notifier, Waiter), Error>)
    ensures
        r matches Ok(p) ==> p.0.raw() >= 0 && p.1.raw() >= 0 && p.0.raw() != p.1.raw()
            && p.1.buf_len() == DEFAULT_BUFFER_SIZE && p.0.well_formed() && p.1.well_formed(),
        r matches Err(e) ==> e matches Error::Os(_),
{
    let ends = match sys_pipe_cloexec() {
        Ok(ends) => ends,
        Err(code) => {
            return Err(Error::Os(code));
        },
    };

    let wr = Notifier(Pipe(Some(ends.1)));
    let rd = Waiter { pipe: Pipe(Some(ends.0)), buf_sz: DEFAULT_BUFFER_SIZE };

    Ok((wr, rd))
}

} // verus!
