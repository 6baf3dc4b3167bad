use vstd::prelude::*;

use crate::catalog::SystemEquations;
use crate::error::SolveError;
use crate::fp::Fp;
use crate::solver::StepFlow;
use crate::trace::{StepRecord, StepTrace};

verus! {

/// The numeric outcomes of one bivariate Newton pass, evaluated by the
/// driver in IEEE-754 double arithmetic: the finite-difference Jacobian, its
/// determinant test, and the Cramer solve all happen there.
#[derive(Clone, Copy, PartialEq, Eq, Structural, Debug)]
pub struct SystemProbe {
    /// Whether the finite-difference Jacobian determinant compares equal to
    /// zero; tested before anything else.
    pub singular: bool,
    /// The updated point (x, y) + delta from the Cramer solve.
    pub x_next: Fp,
    /// See `x_next`.
    pub y_next: Fp,
    /// The Euclidean norm of delta.
    pub step_norm: Fp,
    /// Whether that norm is below the tolerance: the halting condition.
    pub within_tolerance: bool,
}

/// The payload a successful bivariate run reports back to the caller.
#[derive(PartialEq, Eq, Debug)]
pub struct SystemSolution {
    /// Zero-based catalog id of the system.
    pub eq_id: usize,
    /// The converged point.
    pub x: Fp,
    /// See `x`.
    pub y: Fp,
    /// How many passes ran before the converging one.
    pub iterations: usize,
    /// The norm of the final update.
    pub error_value: Fp,
    /// The full per-iteration log.
    pub steps: StepTrace,
}

/// Drives multivariate Newton iteration against a two-equation catalog
/// system, one pass per probe; the driver estimates the Jacobian by forward
/// differences and solves the 2x2 update in closed form.
pub struct NewtonSystemMethod {
    /// Zero-based catalog id of the system, for the result payload.
    pub eq_id: usize,
    /// The current estimate.
    pub x0: Fp,
    /// See `x0`.
    pub y0: Fp,
    /// The requested tolerance.
    pub tolerance: Fp,
    /// The norm of the last update; meaningful once a pass has run, and
    /// reported as the final error value.
    pub last_norm: Fp,
    /// Counts the passes that did not converge; the converging pass leaves it
    /// untouched.
    pub counter: usize,
    /// The iteration cap: reaching it without convergence fails the run.
    pub limit: usize,
    /// Whether the halting condition has been met.
    pub done: bool,
    /// The per-iteration log.
    pub trace: StepTrace,
}

impl NewtonSystemMethod {
    /// A valid in-flight run: the counter stays under the cap, the log holds
    /// one record per pass — the converging pass is logged but not counted —
    /// and records are keyed by their position.
    pub open spec fn wf(self) -> bool {
        &&& self.counter <= self.limit
        &&& self.trace@.len() == self.counter + (if self.done { 1int } else { 0int })
        &&& forall|i: int|
            0 <= i < self.trace@.len() ==> ((#[trigger] self.trace@[i]) matches
                StepRecord::System { key, .. } && key as int == i)
    }

    /// A solver for one catalog system, starting from `(x0, y0)`.
    pub fn new(
        x0: Fp,
        y0: Fp,
        tolerance: Fp,
        equations: &SystemEquations,
        limit: usize,
    ) -> (m: NewtonSystemMethod)
        requires
            limit >= 1,
        ensures
            m.wf(),
            m.eq_id == equations.index(),
            m.x0 == x0,
            m.y0 == y0,
            m.tolerance == tolerance,
            m.last_norm == (Fp { bits: 0 }),
            m.counter == 0,
            m.limit == limit,
            !m.done,
            m.trace@.len() == 0,
    {
        NewtonSystemMethod {
            eq_id: equations.get_function_index(),
            x0,
            y0,
            tolerance,
            last_norm: Fp { bits: 0 },
            counter: 0,
            limit,
            done: false,
            trace: StepTrace::new(),
        }
    }

    /// Advances the run by one pass.
    ///
    /// A singular Jacobian fails the run with `SingularJacobian` and leaves
    /// the state untouched.  Otherwise the pass is logged, the estimate moves
    /// to the probe's updated point, and the run halts exactly when the probe
    /// reports the update norm within the tolerance; a pass that does not
    /// converge advances the counter, and fails with `NonConvergence` when it
    /// reaches the cap.
    pub fn step(&mut self, probe: SystemProbe) -> (flow: StepFlow)
        requires
            old(self).wf(),
            !old(self).done,
            old(self).counter < old(self).limit,
        ensures
            final(self).wf(),
            system_step_rel(*old(self), probe, *final(self), flow),
    {
        if probe.singular {
            return StepFlow::Failed(SolveError::SingularJacobian);
        }
        let record = StepRecord::System {
            key: self.trace.len(),
            x: self.x0,
            y: self.y0,
            x_next: probe.x_next,
            y_next: probe.y_next,
            step_norm: probe.step_norm,
        };
        self.trace.push(record);
        self.x0 = probe.x_next;
        self.y0 = probe.y_next;
        self.last_norm = probe.step_norm;
        if probe.within_tolerance {
            self.done = true;
            StepFlow::Converged
        } else {
            self.counter = self.counter + 1;
            if self.counter == self.limit {
                StepFlow::Failed(SolveError::NonConvergence)
            } else {
                StepFlow::Continue
            }
        }
    }

    /// Completes a converged run: the converged point, the count of passes
    /// before the converging one, and the norm of the final update, alongside
    /// the full log.
    pub fn finish(self) -> (sol: SystemSolution)
        requires
            self.wf(),
            self.done,
        ensures
            sol.eq_id == self.eq_id,
            sol.x == self.x0,
            sol.y == self.y0,
            sol.iterations == self.counter,
            sol.error_value == self.last_norm,
            sol.steps@ == self.trace@,
            sol.steps@.len() == self.counter + 1,
    {
        SystemSolution {
            eq_id: self.eq_id,
            x: self.x0,
            y: self.y0,
            iterations: self.counter,
            error_value: self.last_norm,
            steps: self.trace,
        }
    }
}

/// How one bivariate Newton pass rewrites the state: a singular Jacobian
/// fails the run with `SingularJacobian` and changes nothing; otherwise the
/// pass is appended to the log, the estimate moves to the probe's updated
/// point, and the verdict is `Converged` exactly on the halting condition —
/// which leaves the counter untouched — or the counter advances and the
/// verdict is `NonConvergence` exactly when it reaches the cap.
pub open spec fn system_step_rel(
    pre: NewtonSystemMethod,
    probe: SystemProbe,
    post: NewtonSystemMethod,
    flow: StepFlow,
) -> bool {
    &&& post.eq_id == pre.eq_id
    &&& post.tolerance == pre.tolerance
    &&& post.limit == pre.limit
    &&& if probe.singular {
        &&& post.x0 == pre.x0
        &&& post.y0 == pre.y0
        &&& post.last_norm == pre.last_norm
        &&& post.counter == pre.counter
        &&& post.done == pre.done
        &&& post.trace@ == pre.trace@
        &&& flow == StepFlow::Failed(SolveError::SingularJacobian)
    } else {
        &&& post.trace@ == pre.trace@.push(
            StepRecord::System {
                key: pre.trace@.len() as usize,
                x: pre.x0,
                y: pre.y0,
                x_next: probe.x_next,
                y_next: probe.y_next,
                step_norm: probe.step_norm,
            },
        )
        &&& post.x0 == probe.x_next
        &&& post.y0 == probe.y_next
        &&& post.last_norm == probe.step_norm
        &&& post.done == probe.within_tolerance
        &&& post.counter == (if probe.within_tolerance {
            pre.counter as int
        } else {
            pre.counter + 1
        })
        &&& flow == (if probe.within_tolerance {
            StepFlow::Converged
        } else if post.counter == pre.limit {
            StepFlow::Failed(SolveError::NonConvergence)
        } else {
            StepFlow::Continue
        })
    }
}

/// Re-running a pass changes nothing: the engine's next state and verdict
/// are a function of the current state and the probe alone, so two solvers
/// in the same state fed the same numeric outcomes move in lockstep.
pub proof fn lemma_system_step_deterministic(
    pre: NewtonSystemMethod,
    probe: SystemProbe,
    post1: NewtonSystemMethod,
    flow1: StepFlow,
    post2: NewtonSystemMethod,
    flow2: StepFlow,
)
    requires
        system_step_rel(pre, probe, post1, flow1),
        system_step_rel(pre, probe, post2, flow2),
    ensures
        post1.eq_id == post2.eq_id,
        post1.x0 == post2.x0,
        post1.y0 == post2.y0,
        post1.tolerance == post2.tolerance,
        post1.last_norm == post2.last_norm,
        post1.counter == post2.counter,
        post1.limit == post2.limit,
        post1.done == post2.done,
        post1.trace@ == post2.trace@,
        flow1 == flow2,
{
}

/// A bivariate pass fails with `SingularJacobian` exactly when the probe
/// reports a zero Jacobian determinant.
pub proof fn lemma_system_singular_jacobian(
    pre: NewtonSystemMethod,
    probe: SystemProbe,
    post: NewtonSystemMethod,
    flow: StepFlow,
)
    requires
        system_step_rel(pre, probe, post, flow),
    ensures
        flow == StepFlow::Failed(SolveError::SingularJacobian) <==> probe.singular,
{
}

} // verus!
