//! The sample grid: evenly spaced positions spanning [0, 1].
//!
//! Each position is held as an exact rational `num / den`.  For a grid of
//! `count` samples the denominator is `count - 1` (or 1 for a single sample),
//! and sample `i` has numerator `i`, so the positions run from 0 to 1
//! inclusive, evenly spaced and strictly increasing.

use vstd::prelude::*;

verus! {

/// One sample position, the exact rational `num / den`.
#[derive(PartialEq, Eq, Structural, Clone, Copy, Debug)]
pub struct SampleCoord {
    pub num: usize,
    pub den: usize,
}

/// The common denominator of a grid with `count` samples.
pub open spec fn grid_den(count: int) -> int {
    if count <= 1 {
        1
    } else {
        count - 1
    }
}

/// The grid sample at index `i` out of `count`.
pub open spec fn grid_sample(i: int, count: int) -> SampleCoord {
    SampleCoord { num: i as usize, den: grid_den(count) as usize }
}

/// A sequence is a well-formed grid: sample `i` is `i / (len - 1)`.
pub open spec fn is_uniform_grid(g: Seq<SampleCoord>) -> bool {
    forall|i: int| 0 <= i < g.len() ==> g[i] == grid_sample(i, g.len() as int)
}

/// Produce `count` evenly spaced sample positions from 0.0 to 1.0 inclusive:
/// position `i` is the exact rational `i / (count - 1)`, or 0.0 for a grid of
/// a single sample.
pub fn regenerate(count: usize) -> (r: Vec<SampleCoord>)
    ensures
        r@.len() == count,
        is_uniform_grid(r@),
        forall|i: int| 0 <= i < count ==> r@[i] == grid_sample(i, count as int),
{
    let den: usize = if count <= 1 {
        1
    } else {
        count - 1
    };
    let mut r: Vec<SampleCoord> = Vec::new();
    let mut i: usize = 0;
    while i < count
        invariant
            i <= count,
            r@.len() == i,
            den == grid_den(count as int),
            forall|j: int| 0 <= j < i ==> r@[j] == grid_sample(j, count as int),
        decreases count - i,
    {
        r.push(SampleCoord { num: i, den });
        i = i + 1;
    }
    r
}

} // verus!
