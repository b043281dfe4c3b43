//! The error type shared by both backends.

use vstd::prelude::*;

verus! {

/// A failure reported by a notify, wait, or pair-construction operation.
///
/// Every failure is either an operating-system error code propagated verbatim
/// from the underlying descriptor operation, or a protocol violation raised
/// when a backend's internal invariant is broken (for the kernel counting
/// backend: a counter read that did not return exactly eight bytes).
#[derive(Clone, Copy, Debug, PartialEq, Eq, Structural)]
pub enum Error {
    /// A raw operating-system error code.
    Os(i32),
    /// A backend invariant was violated by the data the descriptor produced.
    Protocol,
}

impl Error {
    /// Whether this error carries a raw operating-system error code.
    pub fn is_os(&self) -> (r: bool)
        ensures
            r == (self matches Error::Os(_)),
    {
        match self {
            Error::Os(_) => true,
            Error::Protocol => false,
        }
    }

    /// The carried operating-system error code, if there is one.
    pub fn os_code(&self) -> (r: Option<i32>)
        ensures
            match r {
                Some(c) => *self == Error::Os(c),
                None => *self == Error::Protocol,
            },
    {
        match self {
            Error::Os(c) => Some(*c),
            Error::Protocol => None,
        }
    }
}

} // verus!
