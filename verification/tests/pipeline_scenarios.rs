use live_plot::probe_coord;
use live_plot::CurvePoint;
use live_plot::Feedback;
use live_plot::LivePlot;
use live_plot::SampleCoord;
use live_plot::TIME_SCALE;

fn coord_value(c: &SampleCoord) -> f64 {
    c.num as f64 / c.den as f64
}

fn point(x: f64, y: f64) -> CurvePoint {
    CurvePoint { x_bits: x.to_bits(), y_bits: y.to_bits() }
}

fn eval_fn(st: &LivePlot, name: &str, s: f64, t: f64) -> Result<f64, String> {
    st.engine
        .call_fn::<f64>(&mut rhai::Scope::new(), &st.program, name, (s, t))
        .map_err(|e| format!("{e:?}"))
}

fn eval_pair(st: &LivePlot, s: f64, t: f64) -> Result<CurvePoint, String> {
    let x = eval_fn(st, "x", s, t)?;
    let y = eval_fn(st, "y", s, t)?;
    Ok(point(x, y))
}

/// One frame, driven exactly as the application drives the library: run the
/// reactive step, and if a recompute is due, probe first, then evaluate the
/// whole grid, aborting on the first failure.
fn run_frame(st: &mut LivePlot, elapsed: u64) {
    if st.begin_frame(elapsed) {
        let t = st.time as f64 / TIME_SCALE as f64;
        let probe = probe_coord();
        let probed = eval_pair(st, coord_value(&probe), t);
        if st.apply_probe(probed) {
            let mut points: Vec<CurvePoint> = Vec::new();
            let mut failure: Option<String> = None;
            for c in st.grid.clone() {
                match eval_pair(st, coord_value(&c), t) {
                    Ok(p) => points.push(p),
                    Err(m) => {
                        failure = Some(m);
                        break;
                    }
                }
            }
            match failure {
                None => st.apply_recompute(Ok(points)),
                Some(m) => st.apply_recompute(Err(m)),
            }
        }
    }
}

#[test]
fn default_state_starts_at_origin() {
    let st = LivePlot::default();
    assert_eq!(st.count, 200);
    assert_eq!(st.time, 0);
    assert!(!st.advancing);
    assert_eq!(st.curve.len(), 200);
    assert!(st.curve.iter().all(|p| *p == point(0.0, 0.0)));
    assert_eq!(st.feedback, Feedback::NoIssues);
    assert_eq!(st.source, live_plot::default_script());
    assert_eq!(st.parsed_source, "");
}

#[test]
fn bundled_script_compiles_and_plots() {
    let mut st = LivePlot::default();
    run_frame(&mut st, 0);
    assert_eq!(st.feedback, Feedback::NoIssues);
    assert_eq!(st.curve.len(), 200);
    // The spiral is not the flat origin curve the state starts with.
    assert!(st.curve.iter().any(|p| *p != point(0.0, 0.0)));
    // Point i is (s*cos(12s), s*sin(12s)) at s = i/199.
    let s: f64 = 10.0 / 199.0;
    assert_eq!(st.curve[10], point(s * (12.0 * s).cos(), s * (12.0 * s).sin()));
}

#[test]
fn parabola_scenario_gives_exact_points() {
    let mut st = LivePlot::default();
    st.set_source("fn x(s, t) { s }\nfn y(s, t) { s * s }\n".to_string());
    st.set_count(5);
    run_frame(&mut st, 0);
    assert_eq!(st.feedback, Feedback::NoIssues);
    let expected = vec![
        point(0.0, 0.0),
        point(0.25, 0.0625),
        point(0.5, 0.25),
        point(0.75, 0.5625),
        point(1.0, 1.0),
    ];
    assert_eq!(st.curve, expected);
}

#[test]
fn recompute_yields_one_point_per_sample() {
    for n in [10usize, 137, 1000] {
        let mut st = LivePlot::default();
        st.set_source("fn x(s, t) { s + t }\nfn y(s, t) { s * s - s }\n".to_string());
        st.set_count(n);
        run_frame(&mut st, 0);
        assert_eq!(st.feedback, Feedback::NoIssues);
        assert_eq!(st.curve.len(), n);
        for (i, c) in st.grid.iter().enumerate() {
            let s = coord_value(c);
            assert_eq!(st.curve[i], point(s, s * s - s));
        }
    }
}

#[test]
fn unchanged_source_compiles_as_no_op() {
    let mut st = LivePlot::default();
    st.set_source("fn x(s, t) { s }\nfn y(s, t) { s * s }\n".to_string());
    st.set_count(5);
    run_frame(&mut st, 0);
    let curve_before = st.curve.clone();
    let feedback_before = st.feedback.clone();
    // Same source text, no slider movement: the next frame is a no-op.
    run_frame(&mut st, 0);
    assert_eq!(st.curve, curve_before);
    assert_eq!(st.feedback, feedback_before);
}

#[test]
fn failing_y_leaves_curve_untouched() {
    let mut st = LivePlot::default();
    st.set_source("fn x(s, t) { s }\nfn y(s, t) { s * s }\n".to_string());
    st.set_count(5);
    run_frame(&mut st, 0);
    let curve_before = st.curve.clone();
    // x still returns a value; y now raises for every input.
    st.set_source("fn x(s, t) { s }\nfn y(s, t) { throw \"boom\" }\n".to_string());
    run_frame(&mut st, 0);
    match &st.feedback {
        Feedback::RuntimeError(m) => assert!(!m.is_empty()),
        other => panic!("expected a runtime diagnostic, got {other:?}"),
    }
    assert_eq!(st.curve, curve_before);
}

#[test]
fn missing_y_fails_probe_and_keeps_prior_curve() {
    let mut st = LivePlot::default();
    st.set_source("fn x(s, t) { s }\n".to_string());
    run_frame(&mut st, 0);
    // The script compiles, but the probe call to the missing `y` fails.
    match &st.feedback {
        Feedback::RuntimeError(m) => assert!(!m.is_empty()),
        other => panic!("expected a runtime diagnostic, got {other:?}"),
    }
    // No successful compute has happened: the initial curve is untouched.
    assert_eq!(st.curve.len(), 200);
    assert!(st.curve.iter().all(|p| *p == point(0.0, 0.0)));
}

#[test]
fn parse_error_keeps_previous_program_and_curve() {
    let mut st = LivePlot::default();
    st.set_source("fn x(s, t) { s }\nfn y(s, t) { s * s }\n".to_string());
    st.set_count(5);
    run_frame(&mut st, 0);
    let curve_before = st.curve.clone();
    // A typo: the compile fails, the previous program and curve stay.
    st.set_source("fn x(".to_string());
    run_frame(&mut st, 0);
    match &st.feedback {
        Feedback::CompileError(m) => assert!(!m.is_empty()),
        other => panic!("expected a compile diagnostic, got {other:?}"),
    }
    assert_eq!(st.curve, curve_before);
    // The previous program still drives recomputes: a new sample count
    // recomputes the parabola while the compile diagnostic stays current.
    st.set_count(3);
    run_frame(&mut st, 0);
    assert!(matches!(st.feedback, Feedback::CompileError(_)));
    assert_eq!(st.curve, vec![point(0.0, 0.0), point(0.5, 0.25), point(1.0, 1.0)]);
}

#[test]
fn advancing_moves_time_and_recomputes() {
    let mut st = LivePlot::default();
    st.set_source("fn x(s, t) { t }\nfn y(s, t) { t }\n".to_string());
    st.set_count(2);
    run_frame(&mut st, 0);
    assert_eq!(st.curve, vec![point(0.0, 0.0), point(0.0, 0.0)]);
    st.set_advancing(true);
    // 0.8 elapsed: the time advances by a quarter of it, to 0.2.
    run_frame(&mut st, 800_000);
    assert_eq!(st.time, 200_000);
    assert_eq!(st.curve, vec![point(0.2, 0.2), point(0.2, 0.2)]);
}

#[test]
fn time_slider_is_clamped_and_triggers_recompute() {
    let mut st = LivePlot::default();
    st.set_source("fn x(s, t) { t }\nfn y(s, t) { s }\n".to_string());
    st.set_count(2);
    run_frame(&mut st, 0);
    st.set_time(2 * TIME_SCALE);
    assert_eq!(st.time, TIME_SCALE);
    run_frame(&mut st, 0);
    assert_eq!(st.curve, vec![point(1.0, 0.0), point(1.0, 1.0)]);
}

#[test]
fn probe_is_the_midpoint() {
    let p = probe_coord();
    assert_eq!(coord_value(&p), 0.5);
}

#[test]
fn integer_result_is_a_runtime_error() {
    let mut st = LivePlot::default();
    // `y` returns an integer, not a float: the typed call must fail, and
    // the initial curve must survive the failed attempt.
    st.set_source("fn x(s, t) { s }\nfn y(s, t) { 3 }\n".to_string());
    run_frame(&mut st, 0);
    match &st.feedback {
        Feedback::RuntimeError(m) => assert!(!m.is_empty()),
        other => panic!("expected a runtime diagnostic, got {other:?}"),
    }
    assert!(st.curve.iter().all(|p| *p == point(0.0, 0.0)));
}
