use vstd::prelude::*;

use crate::error::SolveError;
use crate::fp::Fp;
use crate::solver::{MethodType, ScalarSolution, Solver, StepFlow};
use crate::trace::{StepRecord, StepTrace};

verus! {

/// The numeric facts consulted before a fixed-point run may begin, evaluated
/// by the driver in IEEE-754 double arithmetic.
#[derive(Clone, Copy, PartialEq, Eq, Structural, Debug)]
pub struct FixedPointStart {
    /// Whether f(left) * f(right) < 0.
    pub signs_opposite: bool,
    /// Whether the contraction precondition fails at both endpoints:
    /// 1 - f'(left)/sigma >= 1 and 1 - f'(right)/sigma >= 1, with sigma the
    /// larger derivative magnitude.
    pub no_contraction: bool,
    /// Whether |f'(left)| > |f'(right)|: the iteration starts at the endpoint
    /// with the larger derivative magnitude.
    pub start_at_left: bool,
}

/// The numeric outcomes of one fixed-point pass, evaluated by the driver.
#[derive(Clone, Copy, PartialEq, Eq, Structural, Debug)]
pub struct FixedPointProbe {
    /// The next iterate x - f(x) / sigma.
    pub x_next: Fp,
    /// The function value at the next iterate, recorded in the log.
    pub f_x_next: Fp,
    /// The step distance recorded in the log.
    pub abs_diff: Fp,
    /// Whether this step's distance exceeds the previous one: the divergence
    /// guard, tested before anything is logged.
    pub diverging: bool,
    /// Whether the step distance is below the tolerance: the halting
    /// condition.
    pub within_estimate: bool,
}

/// One fixed-point iteration run in flight.
pub struct FixedPointState {
    /// Zero-based catalog id of the equation, for the result payload.
    pub eq_id: usize,
    /// The left endpoint the run started from, reported back verbatim.
    pub og_left: Fp,
    /// The right endpoint the run started from, reported back verbatim.
    pub og_right: Fp,
    /// The requested tolerance, reported back verbatim.
    pub estimate: Fp,
    /// The current iterate.
    pub x: Fp,
    /// The step distance of the last completed pass; meaningful once a pass
    /// has run, and reported as the final error value.
    pub last_diff: Fp,
    /// The counter value the run began at.
    pub n0: u32,
    /// The iteration counter; advances once per completed pass.
    pub n: u32,
    /// The iteration cap: reaching it without convergence fails the run.
    pub limit: u32,
    /// Whether the halting condition has been met.
    pub done: bool,
    /// The per-iteration log.
    pub trace: StepTrace,
}

impl FixedPointState {
    /// A valid in-flight run: the counter sits between its start and the cap,
    /// and the log holds one fixed-point record per completed pass, keyed by
    /// the counter value of the pass that wrote it.
    pub open spec fn wf(self) -> bool {
        &&& self.n0 <= self.n <= self.limit
        &&& self.trace@.len() == self.n - self.n0
        &&& forall|i: int|
            0 <= i < self.trace@.len() ==> ((#[trigger] self.trace@[i]) matches
                StepRecord::FixedPoint { key, .. } && key as int == self.n0 + i)
    }

    /// Advances the run by one pass.
    ///
    /// The divergence guard is consulted first: a growing step distance fails
    /// the run with `NarrowInterval` and leaves the state untouched.
    /// Otherwise the pass is logged, the iterate moves to the probe's next
    /// value, the counter advances, and the run halts exactly on the halting
    /// condition — or fails with `NonConvergence` when the cap is reached
    /// first.
    pub fn step(&mut self, probe: FixedPointProbe) -> (flow: StepFlow)
        requires
            old(self).wf(),
            !old(self).done,
            old(self).n < old(self).limit,
        ensures
            final(self).wf(),
            fixed_point_step_rel(*old(self), probe, *final(self), flow),
    {
        if probe.diverging {
            return StepFlow::Failed(SolveError::NarrowInterval);
        }
        let record = StepRecord::FixedPoint {
            key: self.n,
            x_k: self.x,
            x_k_plus_one: probe.x_next,
            f_x_k: probe.f_x_next,
            abs_diff: probe.abs_diff,
        };
        self.trace.push(record);
        self.x = probe.x_next;
        self.last_diff = probe.abs_diff;
        self.n = self.n + 1;
        if probe.within_estimate {
            self.done = true;
            StepFlow::Converged
        } else if self.n == self.limit {
            StepFlow::Failed(SolveError::NonConvergence)
        } else {
            StepFlow::Continue
        }
    }

    /// Completes a converged run.
    ///
    /// The driver hands in only the ceiling-rounded root and function value
    /// — rounding is numeric work — while the reported error value is the
    /// last step distance the engine tracked itself.  One log record stands
    /// per iteration counted.
    pub fn finish(self, root: Fp, function_value: Fp) -> (sol: ScalarSolution)
        requires
            self.wf(),
            self.done,
        ensures
            sol.eq_id == self.eq_id,
            sol.method_id == MethodType::Iteration.index(),
            sol.left == self.og_left,
            sol.right == self.og_right,
            sol.estimate == self.estimate,
            sol.root == root,
            sol.function_value == function_value,
            sol.error_value == self.last_diff,
            sol.iterations == self.n,
            sol.steps@ == self.trace@,
            sol.steps@.len() == self.n - self.n0,
    {
        ScalarSolution {
            eq_id: self.eq_id,
            method_id: 1,
            left: self.og_left,
            right: self.og_right,
            estimate: self.estimate,
            root,
            function_value,
            error_value: self.last_diff,
            iterations: self.n,
            steps: self.trace,
        }
    }
}

impl Solver {
    /// Begins a fixed-point iteration run over `[left, right]`.
    ///
    /// The driver reports the sign test and the contraction test.  Without a
    /// sign change the run is refused with `Sign`; when the contraction
    /// precondition fails at both endpoints it is refused with `Convergence`.
    /// No trace is created on a refusal.
    pub fn start_iteration(
        &self,
        left: Fp,
        right: Fp,
        estimate: Fp,
        start: FixedPointStart,
        limit: u32,
    ) -> (r: Result<FixedPointState, SolveError>)
        requires
            self.method == MethodType::Iteration,
            self.n < limit,
        ensures
            r is Ok <==> start.signs_opposite && !start.no_contraction,
            !start.signs_opposite ==> r == Err::<FixedPointState, SolveError>(SolveError::Sign),
            start.signs_opposite && start.no_contraction ==> r == Err::<
                FixedPointState,
                SolveError,
            >(SolveError::Convergence),
            r matches Ok(s) ==> s.wf() && s.eq_id == self.equation.index() && s.og_left == left
                && s.og_right == right && s.estimate == estimate && s.x == (
            if start.start_at_left {
                left
            } else {
                right
            }) && s.last_diff == (Fp { bits: 0 }) && s.n0 == self.n && s.n == self.n
                && s.limit == limit && !s.done && s.trace@.len() == 0,
    {
        if !start.signs_opposite {
            return Err(SolveError::Sign);
        }
        if start.no_contraction {
            return Err(SolveError::Convergence);
        }
        Ok(FixedPointState {
            eq_id: self.equation.get_function_index(),
            og_left: left,
            og_right: right,
            estimate,
            x: if start.start_at_left { left } else { right },
            last_diff: Fp { bits: 0 },
            n0: self.n,
            n: self.n,
            limit,
            done: false,
            trace: StepTrace::new(),
        })
    }
}

/// How one fixed-point pass rewrites the state: a diverging probe fails the
/// run with `NarrowInterval` and changes nothing; otherwise the pass is
/// appended to the log, the iterate moves to the probe's next value, the
/// counter advances by one, and the verdict is `Converged` exactly on the
/// halting condition, `NonConvergence` exactly when the cap was reached
/// without it.
pub open spec fn fixed_point_step_rel(
    pre: FixedPointState,
    probe: FixedPointProbe,
    post: FixedPointState,
    flow: StepFlow,
) -> bool {
    &&& post.eq_id == pre.eq_id
    &&& post.og_left == pre.og_left
    &&& post.og_right == pre.og_right
    &&& post.estimate == pre.estimate
    &&& post.n0 == pre.n0
    &&& post.limit == pre.limit
    &&& if probe.diverging {
        &&& post.x == pre.x
        &&& post.last_diff == pre.last_diff
        &&& post.n == pre.n
        &&& post.done == pre.done
        &&& post.trace@ == pre.trace@
        &&& flow == StepFlow::Failed(SolveError::NarrowInterval)
    } else {
        &&& post.n == pre.n + 1
        &&& post.trace@ == pre.trace@.push(
            StepRecord::FixedPoint {
                key: pre.n,
                x_k: pre.x,
                x_k_plus_one: probe.x_next,
                f_x_k: probe.f_x_next,
                abs_diff: probe.abs_diff,
            },
        )
        &&& post.x == probe.x_next
        &&& post.last_diff == probe.abs_diff
        &&& post.done == probe.within_estimate
        &&& flow == (if probe.within_estimate {
            StepFlow::Converged
        } else if post.n == pre.limit {
            StepFlow::Failed(SolveError::NonConvergence)
        } else {
            StepFlow::Continue
        })
    }
}

/// Re-running a pass changes nothing: the engine's next state and verdict
/// are a function of the current state and the probe alone, so two solvers
/// in the same state fed the same numeric outcomes move in lockstep.
pub proof fn lemma_fixed_point_step_deterministic(
    pre: FixedPointState,
    probe: FixedPointProbe,
    post1: FixedPointState,
    flow1: StepFlow,
    post2: FixedPointState,
    flow2: StepFlow,
)
    requires
        fixed_point_step_rel(pre, probe, post1, flow1),
        fixed_point_step_rel(pre, probe, post2, flow2),
    ensures
        post1.eq_id == post2.eq_id,
        post1.og_left == post2.og_left,
        post1.og_right == post2.og_right,
        post1.estimate == post2.estimate,
        post1.x == post2.x,
        post1.last_diff == post2.last_diff,
        post1.n0 == post2.n0,
        post1.n == post2.n,
        post1.limit == post2.limit,
        post1.done == post2.done,
        post1.trace@ == post2.trace@,
        flow1 == flow2,
{
}

} // verus!
