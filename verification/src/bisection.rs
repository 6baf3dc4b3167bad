use vstd::prelude::*;

use crate::error::SolveError;
use crate::fp::Fp;
use crate::solver::{MethodType, ScalarSolution, Solver, StepFlow};
use crate::trace::{StepRecord, StepTrace};

verus! {

/// The numeric outcomes of one bisection pass, evaluated by the driver in
/// IEEE-754 double arithmetic before the engine is stepped.
#[derive(Clone, Copy, PartialEq, Eq, Structural, Debug)]
pub struct BisectionProbe {
    /// The midpoint (left + right) / 2 of the current bracket.
    pub mid: Fp,
    /// The function value at the current left endpoint.
    pub f_left: Fp,
    /// The function value at the current right endpoint.
    pub f_right: Fp,
    /// The function value at the midpoint.
    pub f_mid: Fp,
    /// |right - left|, the bracket width before this pass narrows it.
    pub width: Fp,
    /// Whether f(left) * f(mid) > 0, so the sign change lies in the upper
    /// half and the lower half can be discarded.
    pub low_same_sign: bool,
    /// The bracket width after this pass narrows it; reported as the final
    /// error value when the pass converges.
    pub narrowed_width: Fp,
    /// Whether the narrowed width is below the tolerance: the halting
    /// condition.
    pub within_estimate: bool,
}

/// One bisection run in flight: the live bracket, the iteration counter, and
/// the log grown so far.
pub struct BisectionState {
    /// Zero-based catalog id of the equation, for the result payload.
    pub eq_id: usize,
    /// The left endpoint the run started from, reported back verbatim.
    pub og_left: Fp,
    /// The right endpoint the run started from, reported back verbatim.
    pub og_right: Fp,
    /// The requested tolerance, reported back verbatim.
    pub estimate: Fp,
    /// The current left endpoint of the bracket.
    pub left: Fp,
    /// The current right endpoint of the bracket.
    pub right: Fp,
    /// The bracket width after the last completed pass; meaningful once a
    /// pass has run, and reported as the final error value.
    pub last_width: Fp,
    /// The counter value the run began at.
    pub n0: u32,
    /// The iteration counter; advances once per pass.
    pub n: u32,
    /// The iteration cap: reaching it without convergence fails the run.
    pub limit: u32,
    /// Whether the halting condition has been met.
    pub done: bool,
    /// The per-iteration log.
    pub trace: StepTrace,
}

impl BisectionState {
    /// A valid in-flight run: the counter sits between its start and the cap,
    /// and the log holds one bisection record per completed pass, keyed by
    /// the counter value of the pass that wrote it.
    pub open spec fn wf(self) -> bool {
        &&& self.n0 <= self.n <= self.limit
        &&& self.trace@.len() == self.n - self.n0
        &&& forall|i: int|
            0 <= i < self.trace@.len() ==> ((#[trigger] self.trace@[i]) matches
                StepRecord::Bisection { key, .. } && key as int == self.n0 + i)
    }

    /// Advances the run by one pass.
    ///
    /// The pass is logged, the half of the bracket that keeps the sign
    /// disagreement survives, the counter advances, and the run halts exactly
    /// when the probe reports the narrowed bracket within the tolerance — or
    /// fails with `NonConvergence` when the cap is reached first.
    pub fn step(&mut self, probe: BisectionProbe) -> (flow: StepFlow)
        requires
            old(self).wf(),
            !old(self).done,
            old(self).n < old(self).limit,
        ensures
            final(self).wf(),
            bisection_step_rel(*old(self), probe, *final(self), flow),
    {
        let record = StepRecord::Bisection {
            key: self.n,
            a: self.left,
            b: self.right,
            x: probe.mid,
            fa: probe.f_left,
            fb: probe.f_right,
            fx: probe.f_mid,
            abs_diff: probe.width,
        };
        self.trace.push(record);
        if probe.low_same_sign {
            self.left = probe.mid;
        } else {
            self.right = probe.mid;
        }
        self.last_width = probe.narrowed_width;
        self.n = self.n + 1;
        if probe.within_estimate {
            self.done = true;
            StepFlow::Converged
        } else if self.n == self.limit {
            StepFlow::Failed(SolveError::NonConvergence)
        } else {
            StepFlow::Continue
        }
    }

    /// Completes a converged run.
    ///
    /// The driver hands in only the ceiling-rounded root and function value
    /// — rounding is numeric work — while the reported error value is the
    /// final bracket width the engine tracked itself.  One log record stands
    /// per iteration counted.
    pub fn finish(self, root: Fp, function_value: Fp) -> (sol: ScalarSolution)
        requires
            self.wf(),
            self.done,
        ensures
            sol.eq_id == self.eq_id,
            sol.method_id == MethodType::HalfDivision.index(),
            sol.left == self.og_left,
            sol.right == self.og_right,
            sol.estimate == self.estimate,
            sol.root == root,
            sol.function_value == function_value,
            sol.error_value == self.last_width,
            sol.iterations == self.n,
            sol.steps@ == self.trace@,
            sol.steps@.len() == self.n - self.n0,
    {
        ScalarSolution {
            eq_id: self.eq_id,
            method_id: 0,
            left: self.og_left,
            right: self.og_right,
            estimate: self.estimate,
            root,
            function_value,
            error_value: self.last_width,
            iterations: self.n,
            steps: self.trace,
        }
    }
}

impl Solver {
    /// Begins a bisection run over `[left, right]`.
    ///
    /// The driver reports whether f(left) * f(right) < 0 held; without a sign
    /// change the run is refused with `Sign` and no trace is created.
    pub fn start_half_division(
        &self,
        left: Fp,
        right: Fp,
        estimate: Fp,
        signs_opposite: bool,
        limit: u32,
    ) -> (r: Result<BisectionState, SolveError>)
        requires
            self.method == MethodType::HalfDivision,
            self.n < limit,
        ensures
            r is Ok <==> signs_opposite,
            !signs_opposite ==> r == Err::<BisectionState, SolveError>(SolveError::Sign),
            r matches Ok(s) ==> s.wf() && s.eq_id == self.equation.index() && s.og_left == left
                && s.og_right == right && s.estimate == estimate && s.left == left
                && s.right == right && s.last_width == (Fp { bits: 0 }) && s.n0 == self.n
                && s.n == self.n && s.limit == limit && !s.done && s.trace@.len() == 0,
    {
        if !signs_opposite {
            return Err(SolveError::Sign);
        }
        Ok(BisectionState {
            eq_id: self.equation.get_function_index(),
            og_left: left,
            og_right: right,
            estimate,
            left,
            right,
            last_width: Fp { bits: 0 },
            n0: self.n,
            n: self.n,
            limit,
            done: false,
            trace: StepTrace::new(),
        })
    }
}

/// How one bisection pass rewrites the state: the pass is appended to the
/// log, the surviving half of the bracket is the one the probe's sign test
/// picked, the counter advances by one, and the verdict is `Converged`
/// exactly on the halting condition, `NonConvergence` exactly when the cap
/// was reached without it.
pub open spec fn bisection_step_rel(
    pre: BisectionState,
    probe: BisectionProbe,
    post: BisectionState,
    flow: StepFlow,
) -> bool {
    &&& post.eq_id == pre.eq_id
    &&& post.og_left == pre.og_left
    &&& post.og_right == pre.og_right
    &&& post.estimate == pre.estimate
    &&& post.n0 == pre.n0
    &&& post.limit == pre.limit
    &&& post.n == pre.n + 1
    &&& post.trace@ == pre.trace@.push(
        StepRecord::Bisection {
            key: pre.n,
            a: pre.left,
            b: pre.right,
            x: probe.mid,
            fa: probe.f_left,
            fb: probe.f_right,
            fx: probe.f_mid,
            abs_diff: probe.width,
        },
    )
    &&& post.left == (if probe.low_same_sign { probe.mid } else { pre.left })
    &&& post.right == (if probe.low_same_sign { pre.right } else { probe.mid })
    &&& post.last_width == probe.narrowed_width
    &&& post.done == probe.within_estimate
    &&& flow == (if probe.within_estimate {
        StepFlow::Converged
    } else if post.n == pre.limit {
        StepFlow::Failed(SolveError::NonConvergence)
    } else {
        StepFlow::Continue
    })
}

/// Re-running a pass changes nothing: the engine's next state and verdict
/// are a function of the current state and the probe alone, so two solvers
/// in the same state fed the same numeric outcomes move in lockstep.
pub proof fn lemma_bisection_step_deterministic(
    pre: BisectionState,
    probe: BisectionProbe,
    post1: BisectionState,
    flow1: StepFlow,
    post2: BisectionState,
    flow2: StepFlow,
)
    requires
        bisection_step_rel(pre, probe, post1, flow1),
        bisection_step_rel(pre, probe, post2, flow2),
    ensures
        post1.eq_id == post2.eq_id,
        post1.og_left == post2.og_left,
        post1.og_right == post2.og_right,
        post1.estimate == post2.estimate,
        post1.left == post2.left,
        post1.right == post2.right,
        post1.last_width == post2.last_width,
        post1.n0 == post2.n0,
        post1.n == post2.n,
        post1.limit == post2.limit,
        post1.done == post2.done,
        post1.trace@ == post2.trace@,
        flow1 == flow2,
{
}

/// After any pass the bracket is one of the two halves the midpoint splits
/// the old bracket into: the probe's midpoint replaces exactly one endpoint
/// and the other endpoint is kept.
pub proof fn lemma_bisection_bracket_narrows(
    pre: BisectionState,
    probe: BisectionProbe,
    post: BisectionState,
    flow: StepFlow,
)
    requires
        bisection_step_rel(pre, probe, post, flow),
    ensures
        (post.left == pre.left && post.right == probe.mid) || (post.left == probe.mid
            && post.right == pre.right),
{
}

} // verus!
