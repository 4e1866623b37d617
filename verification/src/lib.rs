//! A reactive recompute pipeline for a live parametric-curve plotter.
//!
//! A user script defines two functions `x(s, t)` and `y(s, t)` of a sample
//! position `s` in [0, 1] and a time `t` in [0, 1].  Each frame the pipeline
//! recompiles the script when its text changed, probes the two functions at a
//! fixed sample before committing to a full pass, and replaces the plotted
//! curve atomically only when a whole recompute succeeds.  Times are carried
//! as integers scaled by [`playback::TIME_SCALE`], sample positions as exact
//! rationals, and curve coordinates as IEEE 754 bit patterns, so that the
//! pipeline's state transitions are fully specified over plain values; the
//! caller performs the floating-point script evaluation and hands the results
//! back as events.

pub mod grid;
pub mod laws;
pub mod pipeline;
pub mod playback;
pub mod script;

pub use grid::regenerate;
pub use grid::SampleCoord;
pub use pipeline::default_script;
pub use pipeline::probe_coord;
pub use pipeline::CurvePoint;
pub use pipeline::Feedback;
pub use pipeline::LivePlot;
pub use pipeline::INITIAL_POINT_COUNT;
pub use playback::advanced_time;
pub use playback::clamp_time;
pub use playback::TIME_SCALE;
