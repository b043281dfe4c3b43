//! The backend-independent notify/wait contract.

use vstd::prelude::*;
use crate::error::Error;

verus! {

/// The signaling half of a connected pair.
///
/// Each successful call raises the accumulated count that the connected
/// waiting half will observe. Raising a count never blocks for long: it is a
/// single descriptor write.
pub trait Notify {
    /// Raise the accumulated count by one signal.
    fn notify(&self) -> Result<(), Error>;
}

/// The consuming half of a connected pair.
///
/// A wait blocks the calling thread until at least one signal has
/// accumulated, then drains and returns a positive portion of the
/// accumulated count. How much of the count one call can drain is a
/// backend-specific guarantee.
pub trait Wait {
    /// Block until a count is available; return how much was drained.
    fn wait(&self) -> Result<usize, Error>;
}

/// Marker for halves meant for exactly one notifier connected to exactly one
/// waiter; there is no multi-consumer broadcast.
pub trait Unicast {
}

} // verus!
