use vstd::prelude::*;

use crate::error::SolveError;
use crate::fp::Fp;
use crate::solver::{MethodType, ScalarSolution, Solver, StepFlow};
use crate::trace::{StepRecord, StepTrace};

verus! {

/// The numeric outcomes of one secant pass, evaluated by the driver in
/// IEEE-754 double arithmetic.
#[derive(Clone, Copy, PartialEq, Eq, Structural, Debug)]
pub struct SecantProbe {
    /// The next iterate x1 - f(x1) (x1 - x0) / (f(x1) - f(x0)).
    pub x_next: Fp,
    /// The function value at the next iterate, recorded in the log.
    pub f_x_next: Fp,
    /// The step distance |x_next - x1|, recorded in the log.
    pub abs_diff: Fp,
    /// Whether the step distance is below the tolerance: the halting
    /// condition.
    pub within_estimate: bool,
}

/// One secant run in flight: the two live points, the counter, and the log.
pub struct SecantState {
    /// Zero-based catalog id of the equation, for the result payload.
    pub eq_id: usize,
    /// The first starting point, reported back verbatim.
    pub og_left: Fp,
    /// The second starting point, reported back verbatim.
    pub og_right: Fp,
    /// The requested tolerance, reported back verbatim.
    pub estimate: Fp,
    /// The older of the two current points.
    pub x0: Fp,
    /// The newer of the two current points.
    pub x1: Fp,
    /// The step distance of the last completed pass; meaningful once a pass
    /// has run, and reported as the final error value.
    pub last_diff: Fp,
    /// The counter value the run began at.
    pub n0: u32,
    /// The iteration counter; advances once per pass.
    pub n: u32,
    /// The iteration cap: reaching it without convergence fails the run.
    pub limit: u32,
    /// Whether the halting condition has been met.
    pub done: bool,
    /// The per-iteration log.
    pub trace: StepTrace,
}

impl SecantState {
    /// A valid in-flight run: the counter sits between its start and the cap,
    /// and the log holds one secant record per completed pass, keyed by the
    /// counter value of the pass that wrote it.
    pub open spec fn wf(self) -> bool {
        &&& self.n0 <= self.n <= self.limit
        &&& self.trace@.len() == self.n - self.n0
        &&& forall|i: int|
            0 <= i < self.trace@.len() ==> ((#[trigger] self.trace@[i]) matches
                StepRecord::Secant { key, .. } && key as int == self.n0 + i)
    }

    /// Advances the run by one pass.
    ///
    /// The pass is logged, the point pair shifts to (x1, x_next), the counter
    /// advances, and the run halts exactly when the probe reports the step
    /// distance within the tolerance — or fails with `NonConvergence` when
    /// the cap is reached first.
    pub fn step(&mut self, probe: SecantProbe) -> (flow: StepFlow)
        requires
            old(self).wf(),
            !old(self).done,
            old(self).n < old(self).limit,
        ensures
            final(self).wf(),
            secant_step_rel(*old(self), probe, *final(self), flow),
    {
        let record = StepRecord::Secant {
            key: self.n,
            x_k_1: self.x0,
            x_k: self.x1,
            x_k_plus_one: probe.x_next,
            f_x_k_plus_one: probe.f_x_next,
            abs_diff: probe.abs_diff,
        };
        self.trace.push(record);
        self.x0 = self.x1;
        self.x1 = probe.x_next;
        self.last_diff = probe.abs_diff;
        self.n = self.n + 1;
        if probe.within_estimate {
            self.done = true;
            StepFlow::Converged
        } else if self.n == self.limit {
            StepFlow::Failed(SolveError::NonConvergence)
        } else {
            StepFlow::Continue
        }
    }

    /// Completes a converged run.
    ///
    /// The driver hands in only the ceiling-rounded root and function value
    /// — rounding is numeric work — while the reported error value is the
    /// last step distance the engine tracked itself.  One log record stands
    /// per iteration counted.
    pub fn finish(self, root: Fp, function_value: Fp) -> (sol: ScalarSolution)
        requires
            self.wf(),
            self.done,
        ensures
            sol.eq_id == self.eq_id,
            sol.method_id == MethodType::Secant.index(),
            sol.left == self.og_left,
            sol.right == self.og_right,
            sol.estimate == self.estimate,
            sol.root == root,
            sol.function_value == function_value,
            sol.error_value == self.last_diff,
            sol.iterations == self.n,
            sol.steps@ == self.trace@,
            sol.steps@.len() == self.n - self.n0,
    {
        ScalarSolution {
            eq_id: self.eq_id,
            method_id: 3,
            left: self.og_left,
            right: self.og_right,
            estimate: self.estimate,
            root,
            function_value,
            error_value: self.last_diff,
            iterations: self.n,
            steps: self.trace,
        }
    }
}

impl Solver {
    /// Begins a secant run from the two starting points `(x0, x1)`.
    ///
    /// No sign change is demanded.  The driver reports whether the two
    /// starting function values lie within machine epsilon of each other;
    /// such a pair — in particular x0 == x1 — is refused with
    /// `DegenerateSecant` and no trace is created.
    pub fn start_secant(
        &self,
        x0: Fp,
        x1: Fp,
        estimate: Fp,
        degenerate: bool,
        limit: u32,
    ) -> (r: Result<SecantState, SolveError>)
        requires
            self.method == MethodType::Secant,
            self.n < limit,
        ensures
            r is Ok <==> !degenerate,
            degenerate ==> r == Err::<SecantState, SolveError>(SolveError::DegenerateSecant),
            r matches Ok(s) ==> s.wf() && s.eq_id == self.equation.index() && s.og_left == x0
                && s.og_right == x1 && s.estimate == estimate && s.x0 == x0 && s.x1 == x1
                && s.last_diff == (Fp { bits: 0 }) && s.n0 == self.n && s.n == self.n
                && s.limit == limit && !s.done && s.trace@.len() == 0,
    {
        if degenerate {
            return Err(SolveError::DegenerateSecant);
        }
        Ok(SecantState {
            eq_id: self.equation.get_function_index(),
            og_left: x0,
            og_right: x1,
            estimate,
            x0,
            x1,
            last_diff: Fp { bits: 0 },
            n0: self.n,
            n: self.n,
            limit,
            done: false,
            trace: StepTrace::new(),
        })
    }
}

/// How one secant pass rewrites the state: the pass is appended to the log,
/// the point pair shifts so the probe's next iterate becomes the newer point,
/// the counter advances by one, and the verdict is `Converged` exactly on the
/// halting condition, `NonConvergence` exactly when the cap was reached
/// without it.
pub open spec fn secant_step_rel(
    pre: SecantState,
    probe: SecantProbe,
    post: SecantState,
    flow: StepFlow,
) -> bool {
    &&& post.eq_id == pre.eq_id
    &&& post.og_left == pre.og_left
    &&& post.og_right == pre.og_right
    &&& post.estimate == pre.estimate
    &&& post.n0 == pre.n0
    &&& post.limit == pre.limit
    &&& post.n == pre.n + 1
    &&& post.trace@ == pre.trace@.push(
        StepRecord::Secant {
            key: pre.n,
            x_k_1: pre.x0,
            x_k: pre.x1,
            x_k_plus_one: probe.x_next,
            f_x_k_plus_one: probe.f_x_next,
            abs_diff: probe.abs_diff,
        },
    )
    &&& post.x0 == pre.x1
    &&& post.x1 == probe.x_next
    &&& post.last_diff == probe.abs_diff
    &&& post.done == probe.within_estimate
    &&& flow == (if probe.within_estimate {
        StepFlow::Converged
    } else if post.n == pre.limit {
        StepFlow::Failed(SolveError::NonConvergence)
    } else {
        StepFlow::Continue
    })
}

/// Re-running a pass changes nothing: the engine's next state and verdict
/// are a function of the current state and the probe alone, so two solvers
/// in the same state fed the same numeric outcomes move in lockstep.
pub proof fn lemma_secant_step_deterministic(
    pre: SecantState,
    probe: SecantProbe,
    post1: SecantState,
    flow1: StepFlow,
    post2: SecantState,
    flow2: StepFlow,
)
    requires
        secant_step_rel(pre, probe, post1, flow1),
        secant_step_rel(pre, probe, post2, flow2),
    ensures
        post1.eq_id == post2.eq_id,
        post1.og_left == post2.og_left,
        post1.og_right == post2.og_right,
        post1.estimate == post2.estimate,
        post1.x0 == post2.x0,
        post1.x1 == post2.x1,
        post1.last_diff == post2.last_diff,
        post1.n0 == post2.n0,
        post1.n == post2.n,
        post1.limit == post2.limit,
        post1.done == post2.done,
        post1.trace@ == post2.trace@,
        flow1 == flow2,
{
}

} // verus!
