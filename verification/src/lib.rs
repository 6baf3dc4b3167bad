//! Iterative root-finding engine for a catalog of nonlinear equations.
//!
//! The library drives four classical scalar methods (bisection, fixed-point
//! iteration, Newton-Raphson, secant) and a bivariate Newton solver against a
//! closed catalog of equations.  All control decisions — bracket updates,
//! error selection, step-trace bookkeeping, iteration caps — are verified
//! here.  The equations themselves are evaluated in IEEE-754 double
//! arithmetic by the caller, which feeds each iteration's numeric outcomes
//! back to the engine as a probe; the engine carries the numbers as opaque
//! bit patterns ([`fp::Fp`]) and never interprets them.

pub mod bisection;
pub mod catalog;
pub mod error;
pub mod fixed_point;
pub mod fp;
pub mod newton;
pub mod secant;
pub mod solver;
pub mod system;
pub mod trace;
