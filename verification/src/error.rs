use vstd::prelude::*;

verus! {

/// Everything that can stop a solve before it produces a result.
///
/// Each variant is detected locally at the point of violation and returned as
/// a structured value; the verified engine never panics.
#[derive(Clone, Copy, PartialEq, Eq, Structural, Debug)]
pub enum SolveError {
    /// An equation id or method id outside the supported catalog.
    InvalidSelector,
    /// A bracketing method was started on an interval without a sign change.
    Sign,
    /// Fixed-point iteration's contraction condition fails at both endpoints.
    Convergence,
    /// Fixed-point iteration detected a growing step distance.
    NarrowInterval,
    /// Newton-Raphson met a zero first derivative.
    ZeroDerivative,
    /// The secant method's two starting values produced equal function values.
    DegenerateSecant,
    /// The bivariate Newton Jacobian determinant is zero.
    SingularJacobian,
    /// The iteration cap was reached without satisfying the halting condition.
    NonConvergence,
}

} // verus!
