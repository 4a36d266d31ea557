//! The adapter over a runtime whose driver was chosen between two when it was
//! built.

use crate::access::with_access;
use crate::access::AccessViolation;
use monoio::FusionRuntime;
use std::cell::RefCell;
use std::cell::RefMut;
use vstd::prelude::*;

verus! {

/// `monoio::FusionRuntime`, carried as an opaque value: which of its two
/// drivers is active is the runtime's own affair.
#[verifier::external_type_specification]
#[verifier::external_body]
#[verifier::reject_recursive_types(L)]
#[verifier::reject_recursive_types(R)]
pub struct ExFusionRuntime<L, R>(FusionRuntime<L, R>);

/// Executor over a [`FusionRuntime`]: it owns the runtime and lends it to one
/// call of [`block_on`](Self::block_on) at a time.
#[verifier::reject_recursive_types(L)]
#[verifier::reject_recursive_types(R)]
pub struct MonoioFusionRuntimeExecutor<L, R> {
    rt: RefCell<FusionRuntime<L, R>>,
    given: Ghost<FusionRuntime<L, R>>,
}

impl<L, R> MonoioFusionRuntimeExecutor<L, R> {
    /// The runtime that the executor was created with, its active driver
    /// included, as it was when it was handed over. Calls of
    /// [`block_on`](Self::block_on) move the runtime on; this record stays.
    pub closed spec fn given(&self) -> FusionRuntime<L, R> {
        self.given@
    }

    /// Creates an executor that owns `rt`. The runtime is taken as it is:
    /// nothing is asked of it, nothing is run on it, and the driver that was
    /// chosen for it stays.
    pub fn new(rt: FusionRuntime<L, R>) -> (executor: Self)
        ensures
            executor.given() == rt,
    {
        Self { given: Ghost(rt), rt: RefCell::new(rt) }
    }

    /// Lends the runtime to `drive` for the length of one call and returns
    /// what `drive` made of it. To run a future to completion, `drive` is
    /// `|mut rt| rt.block_on(future)`.
    ///
    /// The call needs the runtime for itself. While an earlier call on the
    /// same executor is still running, as it is for a call made from inside
    /// the future of that earlier call, the runtime is lent out and the call
    /// returns [`AccessViolation`] at once, without touching the runtime or
    /// calling `drive`. Which of the two happens is decided by the cell; what
    /// is done in either case is stated by
    /// [`with_access`](crate::access::with_access).
    ///
    /// The call lasts as long as `drive` does, and a panic of `drive` passes
    /// through it; the guard is dropped on the way, so the runtime is free
    /// again afterwards.
    pub fn block_on<T, G>(&self, drive: G) -> (res: Result<T, AccessViolation>) where
        G: for <'b>FnOnce(RefMut<'b, FusionRuntime<L, R>>) -> T,

        requires
            forall|guard: RefMut<'_, FusionRuntime<L, R>>| #[trigger] drive.requires((guard,)),
        ensures
            res matches Ok(output) ==> exists|guard: RefMut<'_, FusionRuntime<L, R>>| #[trigger]
                drive.ensures((guard,), output),
            res is Err ==> res == Err::<T, AccessViolation>(AccessViolation),
    {
        with_access(self.rt.try_borrow_mut(), drive)
    }
}

} // verus!
