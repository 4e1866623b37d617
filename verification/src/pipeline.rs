//! The reactive recompute pipeline.
//!
//! [`LivePlot`] owns the script source, the last-parsed source, the compiled
//! program, the sample grid, the plotted curve, the playback state and a
//! feedback message.  Once per rendered frame the caller feeds the UI edits
//! in through the setters, then calls [`LivePlot::begin_frame`].  That call
//! advances the time while animating, regenerates the grid when the sample
//! count changed, recompiles the script when its text changed, and decides
//! whether the curve must be recomputed.  When it must, the caller evaluates
//! the script's `x` and `y` functions — first at the probe sample, then, if
//! the probe passed, at every grid sample — and reports the outcomes through
//! [`LivePlot::apply_probe`] and [`LivePlot::apply_recompute`].  A failure
//! anywhere leaves the previous curve untouched and records the diagnostic;
//! only a whole successful pass replaces the curve, atomically.

use vstd::prelude::*;
use crate::grid::SampleCoord;
use crate::grid::is_uniform_grid;
use crate::grid::regenerate;
use crate::playback::TIME_SCALE;
use crate::playback::advanced_time;
use crate::playback::clamp_time;
use crate::playback::wrap_time;
use crate::script::compile_program;
use crate::script::empty_program;
use crate::script::new_engine;
use crate::script::parse_error_text;
use crate::script::parses;

verus! {

/// How many samples the plot starts out with.
pub const INITIAL_POINT_COUNT: usize = 200;

/// One plotted point; each coordinate is the bit pattern of an IEEE 754
/// double produced by the script, carried opaquely.  Two points are equal
/// exactly when both coordinates are bit-for-bit equal.
#[derive(PartialEq, Eq, Structural, Clone, Copy, Debug)]
pub struct CurvePoint {
    pub x_bits: u64,
    pub y_bits: u64,
}

/// The current user-facing status, overwritten on every compile or
/// recompute attempt.
#[derive(PartialEq, Eq, Clone, Debug)]
pub enum Feedback {
    /// The last compile and recompute went through.
    NoIssues,
    /// The script failed to parse; the diagnostic is carried verbatim.
    CompileError(String),
    /// A script function was missing or failed when called; the diagnostic
    /// is carried verbatim.
    RuntimeError(String),
}

/// The script source bundled as the initial source text.
pub open spec fn default_source() -> Seq<char> {
    "fn x(s, t) { s * cos(12 * (s + t)) }\nfn y(s, t) { s * sin(12 * (s + t)) }\n"@
}

/// The bundled example script: a spiral whose winding turns with time.
pub fn default_script() -> (r: &'static str)
    ensures
        r@ == default_source(),
{
    "fn x(s, t) { s * cos(12 * (s + t)) }\nfn y(s, t) { s * sin(12 * (s + t)) }\n"
}

/// The fixed sample position (1/2) probed before a full recompute pass.
pub fn probe_coord() -> (r: SampleCoord)
    ensures
        r == (SampleCoord { num: 1, den: 2 }),
{
    SampleCoord { num: 1, den: 2 }
}

/// The whole application state driving the plot.
pub struct LivePlot {
    /// The script engine with its fixed minimal standard surface; it serves
    /// only the caller's evaluation of the compiled functions, never the
    /// compile step.
    pub engine: rhai::Engine,
    /// The most recently compiled program; kept across failed compiles so
    /// the displayed curve does not vanish on a typo.
    pub program: rhai::AST,
    /// The editable script source text.
    pub source: String,
    /// The source text as of the last compile attempt.
    pub parsed_source: String,
    /// The current status message.
    pub feedback: Feedback,
    /// The desired sample count.
    pub count: usize,
    /// The current time, in units of `1 / TIME_SCALE`, at most `TIME_SCALE`.
    pub time: u64,
    /// Whether the animation advances the time each frame.
    pub advancing: bool,
    /// Whether a slider or checkbox changed since the last frame.
    pub changed: bool,
    /// The sample grid the curve is evaluated over.
    pub grid: Vec<SampleCoord>,
    /// The plotted curve, replaced only by a whole successful recompute.
    pub curve: Vec<CurvePoint>,
}

impl LivePlot {
    /// The state is well formed: the time lies in the unit interval and the
    /// grid is evenly spaced over [0, 1].
    pub open spec fn wf(&self) -> bool {
        &&& self.time <= TIME_SCALE
        &&& is_uniform_grid(self.grid@)
    }
}

/// Everything [`LivePlot::begin_frame`] does to the state in one frame,
/// short of the evaluation itself.  With `pre` the state before and `post`
/// the state after: the curve, source, count and advancing flag are kept;
/// the time advances a quarter of `elapsed` with the sawtooth wrap exactly
/// when advancing; the grid is regenerated exactly when the desired count
/// differs from its length; the script is recompiled exactly when the source
/// text differs from the last-parsed text, adopting the new program and a
/// clean status on success, and keeping the previous program while recording
/// the compile diagnostic on failure; the dirty flag is reset; and `due`
/// says whether a recompute follows this frame.
pub open spec fn frame_step(pre: LivePlot, post: LivePlot, elapsed: u64, due: bool) -> bool {
    &&& post.curve == pre.curve
    &&& post.source == pre.source
    &&& post.count == pre.count
    &&& post.advancing == pre.advancing
    &&& !post.changed
    &&& (pre.advancing ==> post.time == wrap_time(pre.time + elapsed / 4))
    &&& (!pre.advancing ==> post.time == pre.time)
    &&& (pre.count != pre.grid@.len() ==> post.grid@.len() == pre.count && is_uniform_grid(
        post.grid@,
    ))
    &&& (pre.count == pre.grid@.len() ==> post.grid == pre.grid)
    &&& (pre.source@ == pre.parsed_source@ ==> post.feedback == pre.feedback && post.program
        == pre.program && post.parsed_source == pre.parsed_source)
    &&& (pre.source@ != pre.parsed_source@ ==> post.parsed_source@ == pre.source@)
    &&& ((pre.source@ != pre.parsed_source@ && parses(pre.source@)) ==> post.feedback
        == Feedback::NoIssues)
    &&& ((pre.source@ != pre.parsed_source@ && !parses(pre.source@)) ==> (
    post.feedback matches Feedback::CompileError(m) && m@.len() > 0 && post.program
        == pre.program))
    &&& due == (pre.count != pre.grid@.len() || (pre.source@ != pre.parsed_source@ && parses(
        pre.source@,
    ) && !pre.advancing) || pre.advancing || pre.changed)
}

/// What reporting the probe outcome does: a success changes nothing and lets
/// the full pass proceed; a failure records its diagnostic, leaves every
/// other field — the curve above all — untouched, and calls the pass off.
pub open spec fn probe_step(
    pre: LivePlot,
    outcome: Result<CurvePoint, String>,
    post: LivePlot,
    proceed: bool,
) -> bool {
    &&& (outcome matches Ok(_) ==> post == pre && proceed)
    &&& (outcome matches Err(m) ==> post == (LivePlot {
        feedback: Feedback::RuntimeError(m),
        ..pre
    }) && !proceed)
}

/// What reporting the full pass does: a success replaces the curve with the
/// reported points, atomically and alone; a failure records its diagnostic
/// and leaves every other field — the curve above all — untouched.
pub open spec fn recompute_step(
    pre: LivePlot,
    outcome: Result<Vec<CurvePoint>, String>,
    post: LivePlot,
) -> bool {
    &&& (outcome matches Ok(points) ==> post == (LivePlot { curve: points, ..pre }))
    &&& (outcome matches Err(m) ==> post == (LivePlot {
        feedback: Feedback::RuntimeError(m),
        ..pre
    }))
}

/// A curve of `n` points all at the origin (the bit pattern of 0.0 is 0).
fn zero_curve(n: usize) -> (r: Vec<CurvePoint>)
    ensures
        r@.len() == n,
        forall|i: int| 0 <= i < n ==> r@[i] == (CurvePoint { x_bits: 0, y_bits: 0 }),
{
    let mut r: Vec<CurvePoint> = Vec::new();
    let mut i: usize = 0;
    while i < n
        invariant
            i <= n,
            r@.len() == i,
            forall|j: int| 0 <= j < i ==> r@[j] == (CurvePoint { x_bits: 0, y_bits: 0 }),
        decreases n - i,
    {
        r.push(CurvePoint { x_bits: 0, y_bits: 0 });
        i = i + 1;
    }
    r
}

impl Default for LivePlot {
    /// The startup state: the bundled example script, nothing parsed yet, an
    /// empty program, 200 samples, time 0, not advancing, and a curve of 200
    /// points at the origin.
    fn default() -> (r: Self)
        ensures
            r.wf(),
            r.source@ == default_source(),
            r.parsed_source@ == Seq::<char>::empty(),
            r.feedback == Feedback::NoIssues,
            r.count == INITIAL_POINT_COUNT,
            r.time == 0,
            !r.advancing,
            !r.changed,
            r.grid@.len() == INITIAL_POINT_COUNT,
            r.curve@.len() == INITIAL_POINT_COUNT,
            forall|i: int|
                0 <= i < INITIAL_POINT_COUNT ==> r.curve@[i] == (CurvePoint {
                    x_bits: 0,
                    y_bits: 0,
                }),
    {
        LivePlot {
            engine: new_engine(),
            program: empty_program(),
            source: default_script().to_owned(),
            parsed_source: String::new(),
            feedback: Feedback::NoIssues,
            count: INITIAL_POINT_COUNT,
            time: 0,
            advancing: false,
            changed: false,
            grid: regenerate(INITIAL_POINT_COUNT),
            curve: zero_curve(INITIAL_POINT_COUNT),
        }
    }
}

impl LivePlot {
    /// Replace the script source text (an editor keystroke or a file load).
    pub fn set_source(&mut self, code: String)
        ensures
            *final(self) == (LivePlot { source: code, ..*old(self) }),
    {
        self.source = code;
    }

    /// The sample-count slider moved.
    pub fn set_count(&mut self, n: usize)
        ensures
            *final(self) == (LivePlot { count: n, changed: true, ..*old(self) }),
    {
        self.count = n;
        self.changed = true;
    }

    /// The time slider moved; the value is clamped into the unit interval.
    pub fn set_time(&mut self, t: u64)
        ensures
            *final(self) == (LivePlot {
                time: (if t > TIME_SCALE {
                    TIME_SCALE
                } else {
                    t
                }),
                changed: true,
                ..*old(self)
            }),
            final(self).time <= TIME_SCALE,
    {
        self.time = clamp_time(t);
        self.changed = true;
    }

    /// The advance checkbox was toggled.
    pub fn set_advancing(&mut self, on: bool)
        ensures
            *final(self) == (LivePlot { advancing: on, changed: true, ..*old(self) }),
    {
        self.advancing = on;
        self.changed = true;
    }

    /// Recompile the script if its text changed since the last attempt; a
    /// no-op otherwise, so compiling twice with unchanged text changes
    /// nothing.  On success the new program is adopted; on failure the
    /// previous program is retained.  The curve is never touched here.
    fn maybe_recompile(&mut self) -> (recompiled: bool)
        ensures
            final(self).curve == old(self).curve,
            final(self).source == old(self).source,
            final(self).count == old(self).count,
            final(self).time == old(self).time,
            final(self).advancing == old(self).advancing,
            final(self).changed == old(self).changed,
            final(self).grid == old(self).grid,
            final(self).engine == old(self).engine,
            old(self).source@ == old(self).parsed_source@ ==> *final(self) == *old(self)
                && !recompiled,
            old(self).source@ != old(self).parsed_source@ ==> final(self).parsed_source@ == old(self).source@,
            old(self).source@ != old(self).parsed_source@ ==> recompiled == parses(
                old(self).source@,
            ),
            (old(self).source@ != old(self).parsed_source@ && parses(old(self).source@)) ==> final(self).feedback == Feedback::NoIssues,
            (old(self).source@ != old(self).parsed_source@ && !parses(old(self).source@)) ==> (
            final(self).feedback matches Feedback::CompileError(m) && m@.len() > 0 && final(self).program == old(self).program),
    {
        if self.source == self.parsed_source {
            return false;
        }
        let recompiled: bool = match compile_program(self.source.as_str()) {
            Ok(ast) => {
                self.program = ast;
                self.feedback = Feedback::NoIssues;
                true
            },
            Err(e) => {
                let msg = parse_error_text(&e);
                self.feedback = Feedback::CompileError(msg);
                false
            },
        };
        self.parsed_source = self.source.clone();
        recompiled
    }

    /// One frame's reactive step, short of the evaluation itself.  Advances
    /// the time while animating, regenerates the grid when the sample count
    /// changed, recompiles when the source text changed, resets the dirty
    /// flag, and says whether a recompute is due this frame.  The curve is
    /// never touched here.
    pub fn begin_frame(&mut self, elapsed: u64) -> (recompute_due: bool)
        requires
            old(self).wf(),
        ensures
            final(self).wf(),
            frame_step(*old(self), *final(self), elapsed, recompute_due),
    {
        if self.advancing {
            self.time = advanced_time(self.time, elapsed);
        }
        let mut due: bool = false;
        if self.count != self.grid.len() {
            self.grid = regenerate(self.count);
            due = true;
        }
        let recompiled = self.maybe_recompile();
        if recompiled && !self.advancing {
            due = true;
        }
        if self.advancing || self.changed {
            due = true;
        }
        self.changed = false;
        due
    }

    /// Report the probe: the script's `x` and `y` evaluated once at the
    /// probe sample with the current time.  A failure records the diagnostic
    /// and calls the whole recompute off, leaving the curve untouched; a
    /// success changes nothing and lets the full pass go ahead.
    pub fn apply_probe(&mut self, outcome: Result<CurvePoint, String>) -> (proceed: bool)
        ensures
            probe_step(*old(self), outcome, *final(self), proceed),
            final(self).curve == old(self).curve,
    {
        match outcome {
            Ok(_) => true,
            Err(m) => {
                self.feedback = Feedback::RuntimeError(m);
                false
            },
        }
    }

    /// Report the full pass: one `(x, y)` point per grid sample, in grid
    /// order, or the first failure's diagnostic.  A success replaces the
    /// curve atomically with exactly one point per sample and leaves the
    /// feedback as the compile stage set it; a failure records the
    /// diagnostic and leaves the previous curve untouched.
    pub fn apply_recompute(&mut self, outcome: Result<Vec<CurvePoint>, String>)
        requires
            outcome matches Ok(points) ==> points@.len() == old(self).grid@.len(),
        ensures
            recompute_step(*old(self), outcome, *final(self)),
            outcome matches Ok(_) ==> final(self).curve@.len() == final(self).grid@.len(),
            outcome matches Err(_) ==> final(self).curve == old(self).curve,
    {
        match outcome {
            Ok(points) => {
                self.curve = points;
            },
            Err(m) => {
                self.feedback = Feedback::RuntimeError(m);
            },
        }
    }
}

} // verus!
