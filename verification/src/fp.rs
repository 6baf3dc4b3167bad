use vstd::prelude::*;

verus! {

/// A 64-bit IEEE-754 value carried as its raw bit pattern.
///
/// The engine never interprets the bits: every arithmetic fact about the
/// numbers behind them reaches the library as a field of a probe, computed by
/// the caller that evaluates the equations.  Equality of `Fp` values is
/// equality of bit patterns.
#[derive(Clone, Copy, PartialEq, Eq, Structural, Debug)]
pub struct Fp {
    pub bits: u64,
}

} // verus!
