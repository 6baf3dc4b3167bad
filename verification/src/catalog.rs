use vstd::prelude::*;

use crate::error::SolveError;

verus! {

/// The closed catalog of scalar equations the service can solve.
///
/// Each variant wraps one fixed closed-form function of a single variable;
/// the caller evaluates it (and its finite-difference derivatives) in
/// IEEE-754 double arithmetic.
#[derive(Clone, Copy, PartialEq, Eq, Structural, Debug)]
pub enum Equation {
    /// f(x) = 1.62 x^3 - 8.15 x^2 + 4.39 x + 4.29
    Equation1,
    /// f(x) = x^3 - x + 4
    Equation2,
    /// f(x) = exp(x) - 5
    Equation3,
    /// f(x) = sin(2 x) + pi / 4
    Equation4,
}

/// The closed catalog of two-equation systems for the bivariate solver.
#[derive(Clone, Copy, PartialEq, Eq, Structural, Debug)]
pub enum SystemEquations {
    /// g1 = x^2 + y^2 - 4,  g2 = -3 x^2 + y
    EquationSystem1,
    /// g1 = x^2 + x - y^2 - 0.15,  g2 = x^2 - y + y^2 + 0.17
    EquationSystem2,
    /// g1 = 2 y - cos(x + 1),  g2 = x + sin(y) + 0.4
    EquationSystem3,
}

/// How many scalar equations the catalog holds.
pub const EQUATION_COUNT: u8 = 4;

/// How many equation systems the catalog holds.
pub const SYSTEM_COUNT: u8 = 3;

impl Equation {
    /// The scalar equation a validated zero-based id selects.
    pub open spec fn of_id(number: u8) -> Equation {
        if number == 0 {
            Equation::Equation1
        } else if number == 1 {
            Equation::Equation2
        } else if number == 2 {
            Equation::Equation3
        } else {
            Equation::Equation4
        }
    }

    /// The zero-based catalog position of this equation.
    pub open spec fn index(self) -> usize {
        match self {
            Equation::Equation1 => 0,
            Equation::Equation2 => 1,
            Equation::Equation3 => 2,
            Equation::Equation4 => 3,
        }
    }

    /// Selects an equation by its zero-based catalog id.
    ///
    /// Ids are validated before they reach the engine, so an in-range id is a
    /// precondition here; [`select_equation`] is the validating front door.
    pub fn new(number: u8) -> (r: Equation)
        requires
            number < EQUATION_COUNT,
        ensures
            r == Equation::of_id(number),
    {
        match number {
            0 => Equation::Equation1,
            1 => Equation::Equation2,
            2 => Equation::Equation3,
            _ => Equation::Equation4,
        }
    }

    /// The zero-based catalog position, as reported in result payloads.
    pub fn get_function_index(&self) -> (r: usize)
        ensures
            r == self.index(),
    {
        match self {
            Equation::Equation1 => 0,
            Equation::Equation2 => 1,
            Equation::Equation3 => 2,
            Equation::Equation4 => 3,
        }
    }
}

impl SystemEquations {
    /// The equation system a validated zero-based id selects.
    pub open spec fn of_id(number: u8) -> SystemEquations {
        if number == 0 {
            SystemEquations::EquationSystem1
        } else if number == 1 {
            SystemEquations::EquationSystem2
        } else {
            SystemEquations::EquationSystem3
        }
    }

    /// The zero-based catalog position of this system.
    pub open spec fn index(self) -> usize {
        match self {
            SystemEquations::EquationSystem1 => 0,
            SystemEquations::EquationSystem2 => 1,
            SystemEquations::EquationSystem3 => 2,
        }
    }

    /// Selects an equation system by its zero-based catalog id.
    pub fn new(number: u8) -> (r: SystemEquations)
        requires
            number < SYSTEM_COUNT,
        ensures
            r == SystemEquations::of_id(number),
    {
        match number {
            0 => SystemEquations::EquationSystem1,
            1 => SystemEquations::EquationSystem2,
            _ => SystemEquations::EquationSystem3,
        }
    }

    /// The zero-based catalog position, as reported in result payloads.
    pub fn get_function_index(&self) -> (r: usize)
        ensures
            r == self.index(),
    {
        match self {
            SystemEquations::EquationSystem1 => 0,
            SystemEquations::EquationSystem2 => 1,
            SystemEquations::EquationSystem3 => 2,
        }
    }
}

/// Validates an equation id taken from a request and selects the equation.
///
/// Exactly the out-of-range ids are rejected, with `InvalidSelector`.
pub fn select_equation(eq_id: usize) -> (r: Result<Equation, SolveError>)
    ensures
        r is Ok <==> eq_id < EQUATION_COUNT,
        eq_id < EQUATION_COUNT ==> r == Ok::<Equation, SolveError>(Equation::of_id(eq_id as u8)),
        eq_id >= EQUATION_COUNT ==> r == Err::<Equation, SolveError>(SolveError::InvalidSelector),
{
    if eq_id < EQUATION_COUNT as usize {
        Ok(Equation::new(eq_id as u8))
    } else {
        Err(SolveError::InvalidSelector)
    }
}

/// Validates a system id taken from a request and selects the system.
///
/// Exactly the out-of-range ids are rejected, with `InvalidSelector`.
pub fn select_system(eq_id: usize) -> (r: Result<SystemEquations, SolveError>)
    ensures
        r is Ok <==> eq_id < SYSTEM_COUNT,
        eq_id < SYSTEM_COUNT ==> r == Ok::<SystemEquations, SolveError>(
            SystemEquations::of_id(eq_id as u8),
        ),
        eq_id >= SYSTEM_COUNT ==> r == Err::<SystemEquations, SolveError>(
            SolveError::InvalidSelector,
        ),
{
    if eq_id < SYSTEM_COUNT as usize {
        Ok(SystemEquations::new(eq_id as u8))
    } else {
        Err(SolveError::InvalidSelector)
    }
}

} // verus!
