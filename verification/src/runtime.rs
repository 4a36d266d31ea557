//! The adapter over a runtime with one fixed driver.

use crate::access::with_access;
use crate::access::AccessViolation;
use monoio::Runtime;
use std::cell::RefCell;
use std::cell::RefMut;
use vstd::prelude::*;

verus! {

/// `monoio::Runtime`, carried as an opaque value.
#[verifier::external_type_specification]
#[verifier::external_body]
#[verifier::reject_recursive_types(D)]
pub struct ExRuntime<D>(Runtime<D>);

/// Executor over a [`Runtime`]: it owns the runtime and lends it to one call
/// of [`block_on`](Self::block_on) at a time.
#[verifier::reject_recursive_types(D)]
pub struct MonoioRuntimeExecutor<D> {
    rt: RefCell<Runtime<D>>,
    given: Ghost<Runtime<D>>,
}

impl<D> MonoioRuntimeExecutor<D> {
    /// The runtime that the executor was created with, as it was when it was
    /// handed over. Calls of [`block_on`](Self::block_on) move the runtime on;
    /// this record stays.
    pub closed spec fn given(&self) -> Runtime<D> {
        self.given@
    }

    /// Creates an executor that owns `rt`. The runtime is taken as it is:
    /// nothing is asked of it and nothing is run on it.
    pub fn new(rt: Runtime<D>) -> (executor: Self)
        ensures
            executor.given() == rt,
    {
        Self { given: Ghost(rt), rt: RefCell::new(rt) }
    }

    /// Lends the runtime to `drive` for the length of one call and returns
    /// what `drive` made of it. To run a future to completion, `drive` is
    /// `|mut rt| rt.block_on(future)`.
    ///
    /// The call needs the runtime for itself. While an earlier call on the
    /// same executor is still running, as it is for a call made from inside
    /// the future of that earlier call, the runtime is lent out and the call
    /// returns [`AccessViolation`] at once, without touching the runtime or
    /// calling `drive`. Which of the two happens is decided by the cell; what
    /// is done in either case is stated by
    /// [`with_access`](crate::access::with_access).
    ///
    /// The call lasts as long as `drive` does, and a panic of `drive` passes
    /// through it; the guard is dropped on the way, so the runtime is free
    /// again afterwards.
    pub fn block_on<T, G>(&self, drive: G) -> (res: Result<T, AccessViolation>) where
        G: for <'b>FnOnce(RefMut<'b, Runtime<D>>) -> T,

        requires
            forall|guard: RefMut<'_, Runtime<D>>| #[trigger] drive.requires((guard,)),
        ensures
            res matches Ok(output) ==> exists|guard: RefMut<'_, Runtime<D>>| #[trigger]
                drive.ensures((guard,), output),
            res is Err ==> res == Err::<T, AccessViolation>(AccessViolation),
    {
        with_access(self.rt.try_borrow_mut(), drive)
    }
}

} // verus!
