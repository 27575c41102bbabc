//! Clock identifiers, kernel timestamps and overflow-checked arithmetic on
//! them, together with the decisions behind a lazily resolved in-process
//! clock-read entry point.

pub mod arith;
pub mod clock_id;
pub mod duration;
pub mod fast_call;
pub mod outcome;
pub mod timespec;

pub use clock_id::ClockId;
pub use outcome::KernelError;
pub use timespec::Timespec;
