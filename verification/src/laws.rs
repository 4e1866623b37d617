//! The pipeline's general guarantees, each stated once over the frame
//! relations of [`crate::pipeline`] and proved.

use vstd::prelude::*;
use crate::grid::grid_sample;
use crate::pipeline::frame_step;
use crate::pipeline::probe_step;
use crate::pipeline::recompute_step;
use crate::pipeline::CurvePoint;
use crate::pipeline::Feedback;
use crate::pipeline::LivePlot;

verus! {

/// A frame whose source text already matches the last-parsed text compiles
/// nothing: the program, the feedback and the curve are exactly what they
/// were.
pub proof fn lemma_unchanged_source_is_no_op(
    pre: LivePlot,
    post: LivePlot,
    elapsed: u64,
    due: bool,
)
    requires
        frame_step(pre, post, elapsed, due),
        pre.source@ == pre.parsed_source@,
    ensures
        post.program == pre.program,
        post.feedback == pre.feedback,
        post.curve == pre.curve,
{
}

/// Compiling is idempotent: any frame leaves the last-parsed text equal to
/// the source text, so a second frame over the identical, unchanged source
/// recompiles nothing — the program, the feedback and the curve all stay
/// put, and the curve is still the one from before the first frame.
pub proof fn lemma_recompile_is_idempotent(
    s0: LivePlot,
    s1: LivePlot,
    s2: LivePlot,
    e1: u64,
    d1: bool,
    e2: u64,
    d2: bool,
)
    requires
        frame_step(s0, s1, e1, d1),
        frame_step(s1, s2, e2, d2),
    ensures
        s1.parsed_source@ == s1.source@,
        s2.program == s1.program,
        s2.feedback == s1.feedback,
        s2.curve == s1.curve,
        s2.curve == s0.curve,
{
}

/// Failure isolation at the probe: a failed probe leaves the curve
/// bit-for-bit unchanged, records the diagnostic it carried, and calls the
/// full pass off.
pub proof fn lemma_failed_probe_isolates(
    pre: LivePlot,
    post: LivePlot,
    m: String,
    proceed: bool,
)
    requires
        probe_step(pre, Err(m), post, proceed),
    ensures
        post.curve == pre.curve,
        post.feedback == Feedback::RuntimeError(m),
        !proceed,
{
}

/// Failure isolation at the full pass: a failed pass leaves the curve
/// bit-for-bit unchanged and records the diagnostic it carried.
pub proof fn lemma_failed_pass_isolates(pre: LivePlot, post: LivePlot, m: String)
    requires
        recompute_step(pre, Err(m), post),
    ensures
        post.curve == pre.curve,
        post.feedback == Feedback::RuntimeError(m),
{
}

/// A due frame followed by a passed probe and a successful full pass commits
/// exactly one point per grid sample: the new curve is the reported point
/// sequence in grid order, its length is the grid's, sample `i` of the grid
/// is the exact rational `i / (len - 1)`, and when the frame was due to a
/// new sample count the new curve has exactly that many points.
pub proof fn lemma_successful_pass_commits(
    s0: LivePlot,
    s1: LivePlot,
    s2: LivePlot,
    s3: LivePlot,
    elapsed: u64,
    probe: CurvePoint,
    points: Vec<CurvePoint>,
)
    requires
        s0.wf(),
        frame_step(s0, s1, elapsed, true),
        probe_step(s1, Ok(probe), s2, true),
        points@.len() == s2.grid@.len(),
        recompute_step(s2, Ok(points), s3),
    ensures
        s3.curve@ == points@,
        s3.curve@.len() == s3.grid@.len(),
        forall|i: int|
            0 <= i < s3.grid@.len() ==> s3.grid@[i] == grid_sample(i, s3.grid@.len() as int),
        s0.count != s0.grid@.len() ==> s3.curve@.len() == s0.count,
{
}

} // verus!
