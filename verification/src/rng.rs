//! Randomness for spawning, behind a pluggable source.
//!
//! Everything the simulation samples (spawn edges, coordinates, radii,
//! velocities, perturbations, smoke scatter) goes through a `RandomSource`,
//! so a fixed sequence can stand in for the thread generator when a
//! deterministic run is wanted.

use vstd::prelude::*;

verus! {

/// A supplier of uniformly distributed values in half-open ranges.
///
/// Only the range of each result is promised; which value comes back is up
/// to the implementation.
pub trait RandomSource {
    /// Picks a value in `lo..hi`.
    fn pick(&mut self, lo: i64, hi: i64) -> (r: i64)
        requires
            lo < hi,
        ensures
            lo <= r < hi,
    ;
}

/// Relies on rand::random_range: a uniform sample over the half-open range
/// `lo..hi`, taken from the thread-local generator; it panics only when the
/// range is empty, which the precondition rules out.
#[verifier::external_body]
fn rand_in(lo: i64, hi: i64) -> (r: i64)
    requires
        lo < hi,
    ensures
        lo <= r < hi,
{
    rand::random_range(lo..hi)
}

/// The thread-local generator of the `rand` crate as a `RandomSource`.
pub struct ThreadRandom {
}

impl RandomSource for ThreadRandom {
    fn pick(&mut self, lo: i64, hi: i64) -> (r: i64) {
        rand_in(lo, hi)
    }
}

/// A fixed sequence of values as a `RandomSource`: each request takes the
/// next value, clamped into the requested range; once the sequence is used
/// up, the lower bound is returned.
pub struct FixedSeq {
    /// The values handed out, in order.
    pub vals: Vec<i64>,
    /// Index of the next value to hand out.
    pub next: usize,
}

impl FixedSeq {
    /// A source that replays the given values.
    pub fn new(vals: Vec<i64>) -> (r: FixedSeq)
        ensures
            r.vals@ == vals@,
            r.next == 0,
    {
        FixedSeq { vals, next: 0 }
    }
}

impl RandomSource for FixedSeq {
    fn pick(&mut self, lo: i64, hi: i64) -> (r: i64) {
        let v: i64 = if self.next < self.vals.len() {
            self.vals[self.next]
        } else {
            lo
        };
        if self.next < usize::MAX {
            self.next = self.next + 1;
        }
        if v < lo {
            lo
        } else if v >= hi {
            hi - 1
        } else {
            v
        }
    }
}

} // verus!
