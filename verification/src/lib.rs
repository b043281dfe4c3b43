//! A minimal single-producer, single-consumer signaling primitive.
//!
//! A connected pair of handles is created by a `pair` factory: a `Notifier`
//! raises a count, and a `Waiter` blocks until a count is available and
//! returns how much accumulated since the last wait.
//!
//! Two backends provide this contract on Unix-like systems:
//!
//! * [`eventfd`]: a kernel counting object with exact, saturating 64-bit
//!   aggregation (Linux);
//! * [`pipe`]: an anonymous pipe that accumulates one byte per signal, so a
//!   wait observes at most its read-buffer length of signals at once.
//!
//! The crate root re-exports the kernel-native backend, which is the one
//! selected on the platforms this crate builds for.

pub mod bytes;
pub mod error;
pub mod harness;
pub mod prelude;
pub mod signal;
mod sys;

pub mod eventfd;
pub mod pipe;

pub use crate::error::Error;
pub use crate::eventfd::pair;
pub use crate::eventfd::Notifier;
pub use crate::eventfd::Waiter;
pub use crate::harness::all_tests;
pub use crate::harness::count_is;
pub use crate::harness::Pair;
pub use crate::signal::Notify;
pub use crate::signal::Unicast;
pub use crate::signal::Wait;
