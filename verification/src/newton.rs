use vstd::prelude::*;

use crate::error::SolveError;
use crate::fp::Fp;
use crate::solver::{MethodType, ScalarSolution, Solver, StepFlow};
use crate::trace::{StepRecord, StepTrace};

verus! {

/// The numeric facts consulted before a Newton-Raphson run may begin,
/// evaluated by the driver in IEEE-754 double arithmetic.
#[derive(Clone, Copy, PartialEq, Eq, Structural, Debug)]
pub struct NewtonStart {
    /// Whether f(left) * f(right) < 0.
    pub signs_opposite: bool,
    /// Whether f(right) * f'(right) > 0: the heuristic that starts the
    /// iteration at the right endpoint rather than the left.
    pub start_at_right: bool,
}

/// The numeric outcomes of one Newton-Raphson pass, evaluated by the driver.
#[derive(Clone, Copy, PartialEq, Eq, Structural, Debug)]
pub struct NewtonProbe {
    /// The function value at the current iterate.
    pub f_x: Fp,
    /// The finite-difference first derivative at the current iterate.
    pub f_prime_x: Fp,
    /// Whether that derivative compares equal to zero; tested before
    /// anything is logged.
    pub derivative_zero: bool,
    /// The next iterate x - f(x) / f'(x).
    pub x_next: Fp,
    /// The step distance recorded in the log.
    pub abs_diff: Fp,
    /// Whether the step distance is within the tolerance and the function
    /// value at the next iterate is below it: the halting condition.
    pub within_estimate: bool,
}

/// One Newton-Raphson run in flight.
pub struct NewtonState {
    /// Zero-based catalog id of the equation, for the result payload.
    pub eq_id: usize,
    /// The left endpoint the run started from, reported back verbatim.
    pub og_left: Fp,
    /// The right endpoint the run started from, reported back verbatim.
    pub og_right: Fp,
    /// The requested tolerance, reported back verbatim.
    pub estimate: Fp,
    /// The current iterate.
    pub x: Fp,
    /// The step distance of the last completed pass; meaningful once a pass
    /// has run, and reported as the final error value.
    pub last_diff: Fp,
    /// The counter value the run began at.
    pub n0: u32,
    /// The iteration counter; advances once per completed pass.
    pub n: u32,
    /// The iteration cap: reaching it without convergence fails the run.
    pub limit: u32,
    /// Whether the halting condition has been met.
    pub done: bool,
    /// The per-iteration log.
    pub trace: StepTrace,
}

impl NewtonState {
    /// A valid in-flight run: the counter sits between its start and the cap,
    /// and the log holds one Newton record per completed pass.  Newton counts
    /// a pass before logging it, so keys start one above the run's offset.
    pub open spec fn wf(self) -> bool {
        &&& self.n0 <= self.n <= self.limit
        &&& self.trace@.len() == self.n - self.n0
        &&& forall|i: int|
            0 <= i < self.trace@.len() ==> ((#[trigger] self.trace@[i]) matches
                StepRecord::Newton { key, .. } && key as int == self.n0 + i + 1)
    }

    /// Advances the run by one pass.
    ///
    /// A zero first derivative fails the run with `ZeroDerivative` and leaves
    /// the state untouched.  Otherwise the counter advances, the pass is
    /// logged, the iterate moves to the probe's next value, and the run halts
    /// exactly on the halting condition — or fails with `NonConvergence` when
    /// the cap is reached first.
    pub fn step(&mut self, probe: NewtonProbe) -> (flow: StepFlow)
        requires
            old(self).wf(),
            !old(self).done,
            old(self).n < old(self).limit,
        ensures
            final(self).wf(),
            newton_step_rel(*old(self), probe, *final(self), flow),
    {
        if probe.derivative_zero {
            return StepFlow::Failed(SolveError::ZeroDerivative);
        }
        self.n = self.n + 1;
        let record = StepRecord::Newton {
            key: self.n,
            x_k: self.x,
            f_x_k: probe.f_x,
            f_prime_x_k: probe.f_prime_x,
            x_k_plus_one: probe.x_next,
            abs_diff: probe.abs_diff,
        };
        self.trace.push(record);
        self.x = probe.x_next;
        self.last_diff = probe.abs_diff;
        if probe.within_estimate {
            self.done = true;
            StepFlow::Converged
        } else if self.n == self.limit {
            StepFlow::Failed(SolveError::NonConvergence)
        } else {
            StepFlow::Continue
        }
    }

    /// Completes a converged run.
    ///
    /// Newton reports its root estimate unrounded — the one method that does
    /// — so the engine already holds the root and the error value; the driver
    /// hands in only the function value at the root.  One log record stands
    /// per iteration counted.
    pub fn finish(self, function_value: Fp) -> (sol: ScalarSolution)
        requires
            self.wf(),
            self.done,
        ensures
            sol.eq_id == self.eq_id,
            sol.method_id == MethodType::Newton.index(),
            sol.left == self.og_left,
            sol.right == self.og_right,
            sol.estimate == self.estimate,
            sol.root == self.x,
            sol.function_value == function_value,
            sol.error_value == self.last_diff,
            sol.iterations == self.n,
            sol.steps@ == self.trace@,
            sol.steps@.len() == self.n - self.n0,
    {
        ScalarSolution {
            eq_id: self.eq_id,
            method_id: 2,
            left: self.og_left,
            right: self.og_right,
            estimate: self.estimate,
            root: self.x,
            function_value,
            error_value: self.last_diff,
            iterations: self.n,
            steps: self.trace,
        }
    }
}

impl Solver {
    /// Begins a Newton-Raphson run over `[left, right]`.
    ///
    /// The driver reports the sign test and the starting-point heuristic.
    /// Without a sign change the run is refused with `Sign` and no trace is
    /// created.
    pub fn start_newton(
        &self,
        left: Fp,
        right: Fp,
        estimate: Fp,
        start: NewtonStart,
        limit: u32,
    ) -> (r: Result<NewtonState, SolveError>)
        requires
            self.method == MethodType::Newton,
            self.n < limit,
        ensures
            r is Ok <==> start.signs_opposite,
            !start.signs_opposite ==> r == Err::<NewtonState, SolveError>(SolveError::Sign),
            r matches Ok(s) ==> s.wf() && s.eq_id == self.equation.index() && s.og_left == left
                && s.og_right == right && s.estimate == estimate && s.x == (
            if start.start_at_right {
                right
            } else {
                left
            }) && s.last_diff == (Fp { bits: 0 }) && s.n0 == self.n && s.n == self.n
                && s.limit == limit && !s.done && s.trace@.len() == 0,
    {
        if !start.signs_opposite {
            return Err(SolveError::Sign);
        }
        Ok(NewtonState {
            eq_id: self.equation.get_function_index(),
            og_left: left,
            og_right: right,
            estimate,
            x: if start.start_at_right { right } else { left },
            last_diff: Fp { bits: 0 },
            n0: self.n,
            n: self.n,
            limit,
            done: false,
            trace: StepTrace::new(),
        })
    }
}

/// How one Newton-Raphson pass rewrites the state: a zero derivative fails
/// the run with `ZeroDerivative` and changes nothing; otherwise the counter
/// advances by one, the pass is appended to the log under the advanced
/// counter, the iterate moves to the probe's next value, and the verdict is
/// `Converged` exactly on the halting condition, `NonConvergence` exactly
/// when the cap was reached without it.
pub open spec fn newton_step_rel(
    pre: NewtonState,
    probe: NewtonProbe,
    post: NewtonState,
    flow: StepFlow,
) -> bool {
    &&& post.eq_id == pre.eq_id
    &&& post.og_left == pre.og_left
    &&& post.og_right == pre.og_right
    &&& post.estimate == pre.estimate
    &&& post.n0 == pre.n0
    &&& post.limit == pre.limit
    &&& if probe.derivative_zero {
        &&& post.x == pre.x
        &&& post.last_diff == pre.last_diff
        &&& post.n == pre.n
        &&& post.done == pre.done
        &&& post.trace@ == pre.trace@
        &&& flow == StepFlow::Failed(SolveError::ZeroDerivative)
    } else {
        &&& post.n == pre.n + 1
        &&& post.trace@ == pre.trace@.push(
            StepRecord::Newton {
                key: (pre.n + 1) as u32,
                x_k: pre.x,
                f_x_k: probe.f_x,
                f_prime_x_k: probe.f_prime_x,
                x_k_plus_one: probe.x_next,
                abs_diff: probe.abs_diff,
            },
        )
        &&& post.x == probe.x_next
        &&& post.last_diff == probe.abs_diff
        &&& post.done == probe.within_estimate
        &&& flow == (if probe.within_estimate {
            StepFlow::Converged
        } else if post.n == pre.limit {
            StepFlow::Failed(SolveError::NonConvergence)
        } else {
            StepFlow::Continue
        })
    }
}

/// Re-running a pass changes nothing: the engine's next state and verdict
/// are a function of the current state and the probe alone, so two solvers
/// in the same state fed the same numeric outcomes move in lockstep.
pub proof fn lemma_newton_step_deterministic(
    pre: NewtonState,
    probe: NewtonProbe,
    post1: NewtonState,
    flow1: StepFlow,
    post2: NewtonState,
    flow2: StepFlow,
)
    requires
        newton_step_rel(pre, probe, post1, flow1),
        newton_step_rel(pre, probe, post2, flow2),
    ensures
        post1.eq_id == post2.eq_id,
        post1.og_left == post2.og_left,
        post1.og_right == post2.og_right,
        post1.estimate == post2.estimate,
        post1.x == post2.x,
        post1.last_diff == post2.last_diff,
        post1.n0 == post2.n0,
        post1.n == post2.n,
        post1.limit == post2.limit,
        post1.done == post2.done,
        post1.trace@ == post2.trace@,
        flow1 == flow2,
{
}

/// A Newton-Raphson pass fails with `ZeroDerivative` exactly when the probe
/// reports a zero first derivative at the current iterate: whenever the
/// iterate lands on a stationary point the run stops with that error, and
/// with that error only there.
pub proof fn lemma_newton_zero_derivative(
    pre: NewtonState,
    probe: NewtonProbe,
    post: NewtonState,
    flow: StepFlow,
)
    requires
        newton_step_rel(pre, probe, post, flow),
    ensures
        flow == StepFlow::Failed(SolveError::ZeroDerivative) <==> probe.derivative_zero,
{
}

} // verus!
