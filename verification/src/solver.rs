use vstd::prelude::*;

use crate::catalog::Equation;
use crate::error::SolveError;
use crate::fp::Fp;
use crate::trace::StepTrace;

verus! {

/// The four scalar root-finding methods, a closed set selected by id.
#[derive(Clone, Copy, PartialEq, Eq, Structural, Debug)]
pub enum MethodType {
    /// Bisection.
    HalfDivision,
    /// Fixed-point (simple) iteration.
    Iteration,
    /// Newton-Raphson.
    Newton,
    /// Secant.
    Secant,
}

/// How many scalar methods there are.
pub const METHOD_COUNT: u8 = 4;

impl MethodType {
    /// The method a validated zero-based id selects.
    pub open spec fn of_id(number: u8) -> MethodType {
        if number == 0 {
            MethodType::HalfDivision
        } else if number == 1 {
            MethodType::Iteration
        } else if number == 2 {
            MethodType::Newton
        } else {
            MethodType::Secant
        }
    }

    /// The zero-based id of this method.
    pub open spec fn index(self) -> usize {
        match self {
            MethodType::HalfDivision => 0,
            MethodType::Iteration => 1,
            MethodType::Newton => 2,
            MethodType::Secant => 3,
        }
    }

    /// The zero-based id, as reported in result payloads.
    pub fn get_method_index(&self) -> (r: usize)
        ensures
            r == self.index(),
    {
        match self {
            MethodType::HalfDivision => 0,
            MethodType::Iteration => 1,
            MethodType::Newton => 2,
            MethodType::Secant => 3,
        }
    }
}

/// Validates a method id taken from a request and selects the method.
///
/// Exactly the out-of-range ids are rejected, with `InvalidSelector`.
pub fn select_method(method_id: usize) -> (r: Result<MethodType, SolveError>)
    ensures
        r is Ok <==> method_id < METHOD_COUNT,
        method_id < METHOD_COUNT ==> r == Ok::<MethodType, SolveError>(
            MethodType::of_id(method_id as u8),
        ),
        method_id >= METHOD_COUNT ==> r == Err::<MethodType, SolveError>(
            SolveError::InvalidSelector,
        ),
{
    if method_id < METHOD_COUNT as usize {
        Ok(match method_id {
            0 => MethodType::HalfDivision,
            1 => MethodType::Iteration,
            2 => MethodType::Newton,
            _ => MethodType::Secant,
        })
    } else {
        Err(SolveError::InvalidSelector)
    }
}

/// What one engine step asks the driver to do next.
#[derive(Clone, Copy, PartialEq, Eq, Structural, Debug)]
pub enum StepFlow {
    /// Evaluate the next probe and step again.
    Continue,
    /// The halting condition holds; finish the run.
    Converged,
    /// The run stopped: the named error is the whole outcome, and the trace
    /// accumulated so far is discarded.
    Failed(SolveError),
}

/// Drives one of the four scalar methods against a catalog equation.
///
/// A solver is constructed per request.  Its counter is the starting offset
/// of every run it begins; it is deliberately not reset, so a fresh solver
/// must be constructed per independent root-finding request.
#[derive(Clone, Copy, PartialEq, Eq, Structural, Debug)]
pub struct Solver {
    /// The catalog equation the methods evaluate.
    pub equation: Equation,
    /// The selected method.
    pub method: MethodType,
    /// The iteration counter runs begun by this solver start from.
    pub n: u32,
}

impl Solver {
    /// A solver for one equation and one method, with its counter at zero.
    pub fn new(eq: &Equation, method: MethodType) -> (s: Solver)
        ensures
            s.equation == *eq,
            s.method == method,
            s.n == 0,
    {
        Solver { equation: *eq, method, n: 0 }
    }
}

/// The payload a successful scalar run reports back to the caller.
#[derive(PartialEq, Eq, Debug)]
pub struct ScalarSolution {
    /// Zero-based catalog id of the equation.
    pub eq_id: usize,
    /// Zero-based id of the method that produced the result.
    pub method_id: usize,
    /// The interval (or pair of starting points) the request supplied.
    pub left: Fp,
    /// See `left`.
    pub right: Fp,
    /// The requested tolerance.
    pub estimate: Fp,
    /// The root estimate (ceiling-rounded for every method but Newton).
    pub root: Fp,
    /// The function value at the root estimate (rounded alike).
    pub function_value: Fp,
    /// The halting measurement: final bracket width or last step distance.
    pub error_value: Fp,
    /// The final value of the iteration counter.
    pub iterations: u32,
    /// The full per-iteration log.
    pub steps: StepTrace,
}

} // verus!
