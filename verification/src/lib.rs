//! Progress points for causal profiling.
//!
//! An instrumented program marks its progress with named counters. A counter
//! is registered with the profiling agent the first time its call site runs,
//! and bumped on every run; without an agent each call site settles on "no
//! counter" and does nothing.

pub mod backend;
pub mod counter;
pub mod kind;
pub mod name;
mod once;
pub mod sigstack;

pub use backend::{coz_get_counter, BackendHandle, Locator};
pub use counter::{Counter, Increment};
pub use kind::CounterKind;
pub use sigstack::{init, SignalStack, StackError, StackGuard, StackPlan};
