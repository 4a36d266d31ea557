//! The adapter over a runtime whose driver was chosen when it was built.

use monoio::Driver;
use monoio::FusionDriver;
use monoio::FusionRuntime;
use monoio::IoUringDriver;
use monoio::LegacyDriver;
use monoio::RuntimeBuilder;
use monoio_criterion::AccessViolation;
use monoio_criterion::MonoioFusionRuntimeExecutor;
use std::future::Future;

fn on_uring() -> FusionRuntime<IoUringDriver, LegacyDriver> {
    FusionRuntime::from(RuntimeBuilder::<IoUringDriver>::new().build().unwrap())
}

fn on_legacy() -> FusionRuntime<IoUringDriver, LegacyDriver> {
    FusionRuntime::from(RuntimeBuilder::<LegacyDriver>::new().build().unwrap())
}

fn run_fused<L: Driver, R: Driver, F: Future>(
    executor: &MonoioFusionRuntimeExecutor<L, R>,
    future: F,
) -> Result<F::Output, AccessViolation> {
    executor.block_on(|mut rt| rt.block_on(future))
}

#[test]
fn first_driver_returns_unit() {
    let executor = MonoioFusionRuntimeExecutor::new(on_uring());
    assert!(matches!(run_fused(&executor, async {}), Ok(())));
}

#[test]
fn second_driver_returns_unit_twice() {
    let executor = MonoioFusionRuntimeExecutor::new(on_legacy());
    assert_eq!(run_fused(&executor, async {}), Ok(()));
    assert_eq!(run_fused(&executor, async {}), Ok(()));
}

#[test]
fn either_driver_returns_the_integer() {
    let first = MonoioFusionRuntimeExecutor::new(on_uring());
    let second = MonoioFusionRuntimeExecutor::new(on_legacy());
    assert_eq!(run_fused(&first, async { 42 }), Ok(42));
    assert_eq!(run_fused(&second, async { 42 }), Ok(42));
}

#[test]
fn chosen_driver_stays_chosen() {
    let first = MonoioFusionRuntimeExecutor::new(on_uring());
    let second = MonoioFusionRuntimeExecutor::new(on_legacy());
    assert_eq!(
        first.block_on(|rt| matches!(*rt, FusionRuntime::Uring(_))),
        Ok(true)
    );
    assert_eq!(
        second.block_on(|rt| matches!(*rt, FusionRuntime::Legacy(_))),
        Ok(true)
    );
    assert_eq!(run_fused(&first, async { 1 }), Ok(1));
    assert_eq!(
        first.block_on(|rt| matches!(*rt, FusionRuntime::Uring(_))),
        Ok(true)
    );
}

#[test]
fn driver_picked_by_the_builder_runs_the_future() {
    let rt = RuntimeBuilder::<FusionDriver>::new().build().unwrap();
    let executor = MonoioFusionRuntimeExecutor::new(rt);
    assert_eq!(run_fused(&executor, async { 3 * 14 }), Ok(42));
}

#[test]
fn fusion_call_from_inside_a_call_is_refused() {
    let executor = MonoioFusionRuntimeExecutor::new(on_legacy());
    let outer = run_fused(&executor, async { run_fused(&executor, async { 1 }) });
    assert_eq!(outer, Ok(Err(AccessViolation)));
    assert_eq!(run_fused(&executor, async { 2 }), Ok(2));
}
