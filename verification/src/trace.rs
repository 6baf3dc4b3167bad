use vstd::prelude::*;

use crate::fp::Fp;

verus! {

/// One per-iteration diagnostic record, in the shape the method that produced
/// it reports: the current iterate(s), the function values consulted, and the
/// absolute step distance, all as opaque IEEE-754 bit patterns.
#[derive(Clone, Copy, PartialEq, Eq, Structural, Debug)]
#[allow(inconsistent_fields)]
pub enum StepRecord {
    /// One bisection pass: the bracket `[a, b]`, its midpoint `x`, the
    /// function values at all three points, and the bracket width.
    Bisection { key: u32, a: Fp, b: Fp, x: Fp, fa: Fp, fb: Fp, fx: Fp, abs_diff: Fp },
    /// One fixed-point pass: the iterate, its successor, the function value
    /// at the successor, and the step distance.
    FixedPoint { key: u32, x_k: Fp, x_k_plus_one: Fp, f_x_k: Fp, abs_diff: Fp },
    /// One Newton-Raphson pass: the iterate, the function value and first
    /// derivative there, the successor, and the step distance.
    Newton { key: u32, x_k: Fp, f_x_k: Fp, f_prime_x_k: Fp, x_k_plus_one: Fp, abs_diff: Fp },
    /// One secant pass: the two current points, the successor, the function
    /// value at the successor, and the step distance.
    Secant { key: u32, x_k_1: Fp, x_k: Fp, x_k_plus_one: Fp, f_x_k_plus_one: Fp, abs_diff: Fp },
    /// One bivariate Newton pass: the current point, the updated point, and
    /// the Euclidean norm of the update.
    System { key: usize, x: Fp, y: Fp, x_next: Fp, y_next: Fp, step_norm: Fp },
}

/// An ordered, append-only log of per-iteration records.
///
/// Every solver produces one and returns it verbatim alongside its final
/// result; records are never rewritten once appended — the only mutator is
/// [`StepTrace::push`].
#[derive(PartialEq, Eq, Debug)]
pub struct StepTrace {
    records: Vec<StepRecord>,
}

impl View for StepTrace {
    type V = Seq<StepRecord>;

    closed spec fn view(&self) -> Seq<StepRecord> {
        self.records@
    }
}

impl StepTrace {
    /// An empty log.
    pub fn new() -> (t: StepTrace)
        ensures
            t@ == Seq::<StepRecord>::empty(),
    {
        StepTrace { records: Vec::new() }
    }

    /// Appends one record; everything already logged is kept unchanged.
    pub fn push(&mut self, record: StepRecord)
        ensures
            final(self)@ == old(self)@.push(record),
    {
        self.records.push(record);
    }

    /// How many records the log holds.
    pub fn len(&self) -> (n: usize)
        ensures
            n == self@.len(),
    {
        self.records.len()
    }

    /// The records in the order they were appended.
    pub fn records(&self) -> (r: &Vec<StepRecord>)
        ensures
            r@ == self@,
    {
        &self.records
    }
}

} // verus!
