//! Blocking executors over monoio runtimes.
//!
//! A benchmarking harness drives asynchronous code through a value that can
//! take a future and hand back its output, and it calls that value through a
//! shared reference. A monoio runtime wants exclusive access while it drives a
//! future. The two adapters of this crate close that gap: each owns one
//! runtime behind a cell that lends it to one call at a time.
//!
//! * [`MonoioRuntimeExecutor`] owns a `Runtime` with one fixed driver.
//! * [`MonoioFusionRuntimeExecutor`] owns a `FusionRuntime`, whose driver was
//!   chosen between two when the runtime was built.
//!
//! A call that finds the runtime lent out returns [`AccessViolation`] and
//! leaves the runtime alone.
//!
//! The adapters decide who gets the runtime; the caller says what is done
//! with it. `block_on` takes that as a function from the exclusive access to
//! a result, which for a future is one call of the runtime's own `block_on`.
//! monoio panics when a runtime is started on a thread that is already inside
//! one, and nothing tells beforehand whether it is: so that call is the
//! caller's. The functions of this crate call nothing of their own that can
//! panic, and they call the caller's function only where its precondition
//! holds.

pub mod access;
pub mod fusion;
pub mod runtime;

pub use access::AccessViolation;
pub use fusion::MonoioFusionRuntimeExecutor;
pub use runtime::MonoioRuntimeExecutor;
