//! The fixed-point iteration that solves Kepler's equation.
//!
//! The iteration is generic in the value it refines: the caller supplies the
//! update rule (one Newton step of the elliptic or hyperbolic equation) and
//! the convergence test (an absolute difference within tolerance, or a step
//! that left the value unchanged). What is decided here is when to stop:
//! as soon as a step converges, or with `NonConvergence` once the budget of
//! steps is spent, never looping without end.
use vstd::prelude::*;

use crate::error::OrbitError;

verus! {

/// The largest number of update steps one solve may take.
pub const MAX_KEPLER_ITERATIONS: usize = 100;

/// `run` is a sequence of iterates that starts at `init`, where each entry
/// after the first is a result of `step` on the entry before it.
pub open spec fn is_run<T, S: Fn(T) -> T>(step: S, init: T, run: Seq<T>) -> bool {
    &&& run.len() >= 1
    &&& run[0] == init
    &&& forall|k: int| 0 <= k < run.len() - 1 ==> #[trigger] step.ensures((run[k],), run[k + 1])
}

/// None of the first `n` steps of `run` met the convergence test.
pub open spec fn unsettled<T, C: Fn(T, T) -> bool>(converged: C, run: Seq<T>, n: int) -> bool {
    forall|k: int| 0 <= k < n ==> #[trigger] converged.ensures((run[k], run[k + 1]), false)
}

/// `x` is the outcome of a run from `init` whose last step, and only its
/// last, met the convergence test, within the budget of steps.
pub open spec fn converges_to<T, S: Fn(T) -> T, C: Fn(T, T) -> bool>(
    step: S,
    converged: C,
    init: T,
    x: T,
) -> bool {
    exists|run: Seq<T>|
        {
            &&& is_run(step, init, run)
            &&& 2 <= run.len() <= MAX_KEPLER_ITERATIONS + 1
            &&& run.last() == x
            &&& unsettled(converged, run, run.len() - 2)
            &&& #[trigger] converged.ensures((run[run.len() - 2], run.last()), true)
        }
}

/// There is a run from `init` that spends the whole budget of steps without
/// meeting the convergence test.
pub open spec fn exhausts_budget<T, S: Fn(T) -> T, C: Fn(T, T) -> bool>(
    step: S,
    converged: C,
    init: T,
) -> bool {
    exists|run: Seq<T>|
        {
            &&& #[trigger] is_run(step, init, run)
            &&& run.len() == MAX_KEPLER_ITERATIONS + 1
            &&& unsettled(converged, run, MAX_KEPLER_ITERATIONS as int)
        }
}

/// Iterates `step` from `init` until `converged(previous, next)` holds, and
/// returns that `next`. Fails with `NonConvergence` when
/// `MAX_KEPLER_ITERATIONS` steps pass without convergence.
pub fn kepler_iterate<T: Copy, S: Fn(T) -> T, C: Fn(T, T) -> bool>(
    init: T,
    step: S,
    converged: C,
) -> (r: Result<T, OrbitError>)
    requires
        forall|x: T| #[trigger] step.requires((x,)),
        forall|a: T, b: T| #[trigger] converged.requires((a, b)),
    ensures
        match r {
            Ok(x) => converges_to(step, converged, init, x),
            Err(e) => e == OrbitError::NonConvergence && exhausts_budget(step, converged, init),
        },
{
    let mut previous = init;
    let mut steps: usize = 0;
    let ghost mut run: Seq<T> = seq![init];
    while steps < MAX_KEPLER_ITERATIONS
        invariant
            forall|x: T| #[trigger] step.requires((x,)),
            forall|a: T, b: T| #[trigger] converged.requires((a, b)),
            steps <= MAX_KEPLER_ITERATIONS,
            run.len() == steps + 1,
            is_run(step, init, run),
            run.last() == previous,
            unsettled(converged, run, steps as int),
        decreases MAX_KEPLER_ITERATIONS - steps,
    {
        let next = step(previous);
        let ghost extended = run.push(next);
        assert(is_run(step, init, extended)) by {
            assert forall|k: int| 0 <= k < extended.len() - 1 implies #[trigger] step.ensures(
                (extended[k],),
                extended[k + 1],
            ) by {
                if k < run.len() - 1 {
                    assert(extended[k] == run[k] && extended[k + 1] == run[k + 1]);
                } else {
                    assert(extended[k] == previous && extended[k + 1] == next);
                }
            }
        }
        assert(unsettled(converged, extended, steps as int)) by {
            assert forall|k: int| 0 <= k < steps implies #[trigger] converged.ensures(
                (extended[k], extended[k + 1]),
                false,
            ) by {
                assert(extended[k] == run[k] && extended[k + 1] == run[k + 1]);
            }
        }
        let done = converged(previous, next);
        proof {
            run = extended;
        }
        steps = steps + 1;
        if done {
            assert(converged.ensures((run[run.len() - 2], run.last()), true));
            return Ok(next);
        }
        previous = next;
    }
    Err(OrbitError::NonConvergence)
}

} // verus!
