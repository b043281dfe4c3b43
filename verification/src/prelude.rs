//! The names a caller of either backend wants in scope.

pub use crate::signal::Notify;
pub use crate::signal::Wait;
