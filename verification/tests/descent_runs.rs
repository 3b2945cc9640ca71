use descent_core::{DescentEvent, DescentMachine, Outcome, Phase, Scalar};

fn enc(v: f64) -> Scalar {
    Scalar(v.to_bits())
}

fn dec(s: Scalar) -> f64 {
    f64::from_bits(s.0)
}

struct RunOutput {
    x: Vec<f64>,
    f_x: f64,
    iterations: usize,
    history: Vec<(f64, f64, f64)>,
    terminated_early: bool,
    outcome: Outcome,
    evaluations: usize,
    steps_seen: Vec<f64>,
}

/// Forward finite-difference gradient estimate: the base value is
/// evaluated once and reused for all perturbed evaluations.
fn estimate_gradient(f: &dyn Fn(&[f64]) -> f64, x: &[f64], eps: f64, evals: &mut usize) -> Vec<f64> {
    let f0 = f(x);
    *evals += 1;
    let mut g = Vec::with_capacity(x.len());
    for i in 0..x.len() {
        let mut xp = x.to_vec();
        xp[i] += eps;
        g.push((f(&xp) - f0) / eps);
        *evals += 1;
    }
    g
}

/// Drives the library's descent machine exactly as the application
/// driver does, with all numeric work done here.
fn run_descent(
    f: &dyn Fn(&[f64]) -> f64,
    start: &[f64],
    initial_step: f64,
    decay: f64,
    growth: f64,
    tolerance: f64,
    max_iterations: usize,
    cancelled: bool,
) -> RunOutput {
    let n = start.len();
    let mut evals: usize = 0;
    let mut x: Vec<f64> = start.to_vec();
    let mut f_x = f(&x);
    evals += 1;
    let mut step = initial_step;
    let mut steps_seen = vec![step];
    let mut machine = DescentMachine::new(
        n,
        max_iterations,
        x.iter().map(|v| enc(*v)).collect(),
        enc(f_x),
    );
    let mut direction: Vec<f64> = vec![0.0; n];
    let mut trial: f64 = 0.0;
    loop {
        match machine.phase() {
            Phase::AwaitingPoll => {
                machine.advance(DescentEvent::CancellationPolled { cancelled });
            }
            Phase::AwaitingGradient => {
                let g = estimate_gradient(f, &x, 1e-6, &mut evals);
                let norm = g.iter().map(|v| v * v).sum::<f64>().sqrt();
                if norm < tolerance {
                    machine.advance(DescentEvent::GradientWithinTolerance);
                } else {
                    for i in 0..n {
                        direction[i] = -g[i];
                    }
                    trial = step;
                    machine.advance(DescentEvent::GradientDescends);
                }
            }
            Phase::Searching { .. } => {
                let xt: Vec<f64> = (0..n).map(|i| x[i] + trial * direction[i]).collect();
                let ft = f(&xt);
                evals += 1;
                if ft < f_x {
                    x = xt.clone();
                    f_x = ft;
                    step = (growth * trial).min(1.0);
                    steps_seen.push(step);
                    machine.advance(DescentEvent::TrialImproved {
                        point: xt.iter().map(|v| enc(*v)).collect(),
                        value: enc(ft),
                    });
                } else {
                    trial *= decay;
                    machine.advance(DescentEvent::TrialRejected);
                }
            }
            Phase::Done { .. } => break,
        }
    }
    let result = machine.into_result();
    RunOutput {
        x: result.x.iter().map(|s| dec(*s)).collect(),
        f_x: dec(result.f_x),
        iterations: result.iterations,
        history: result
            .history
            .iter()
            .map(|s| (dec(s.first), dec(s.second), dec(s.value)))
            .collect(),
        terminated_early: result.terminated_early,
        outcome: result.outcome,
        evaluations: evals,
        steps_seen,
    }
}

fn bowl(x: &[f64]) -> f64 {
    x[0] * x[0] + x[1] * x[1]
}

#[test]
fn converges_on_quadratic_bowl() {
    let out = run_descent(&bowl, &[2.0, 2.0], 1.0, 0.5, 1.2, 1e-6, 1000, false);
    assert_eq!(out.outcome, Outcome::Converged);
    assert!(!out.terminated_early);
    assert!(out.iterations < 1000);
    assert!(out.x[0].abs() < 1e-3 && out.x[1].abs() < 1e-3);
    assert!(out.f_x < 1e-6);
    assert_eq!(out.history.len(), out.iterations + 1);
}

#[test]
fn objective_strictly_decreases_along_trajectory() {
    let out = run_descent(&bowl, &[2.0, 2.0], 1.0, 0.5, 1.2, 1e-6, 1000, false);
    for w in out.history.windows(2) {
        assert!(w[1].2 < w[0].2);
    }
}

#[test]
fn step_size_stays_in_unit_interval() {
    let out = run_descent(&bowl, &[2.0, 2.0], 1.0, 0.5, 1.2, 1e-6, 1000, false);
    for s in &out.steps_seen {
        assert!(*s > 0.0 && *s <= 1.0);
    }
}

#[test]
fn gradient_estimate_is_accurate() {
    let square = |x: &[f64]| x[0] * x[0];
    let mut evals: usize = 0;
    let g = estimate_gradient(&square, &[3.0], 1e-6, &mut evals);
    assert_eq!(g.len(), 1);
    assert!((g[0] - 6.0).abs() < 1e-4);
    assert_eq!(evals, 2);
}

#[test]
fn gradient_estimation_evaluates_base_once() {
    let mut evals: usize = 0;
    let g = estimate_gradient(&bowl, &[1.0, 2.0], 1e-6, &mut evals);
    assert_eq!(g.len(), 2);
    // one base evaluation plus one per coordinate
    assert_eq!(evals, 3);
}

#[test]
fn immediate_convergence_at_minimum() {
    // At the exact minimum the forward-difference estimate still has
    // norm of about 1.4e-6, so a tolerance above that sees immediate
    // convergence: zero iterations, only the seed sample recorded.
    let out = run_descent(&bowl, &[0.0, 0.0], 1.0, 0.5, 1.2, 1e-5, 1000, false);
    assert_eq!(out.outcome, Outcome::Converged);
    assert_eq!(out.iterations, 0);
    assert_eq!(out.history.len(), 1);
    assert!(!out.terminated_early);
    // seed evaluation plus the three gradient evaluations
    assert_eq!(out.evaluations, 4);
}

#[test]
fn cancellation_before_first_iteration() {
    let out = run_descent(&bowl, &[2.0, 2.0], 1.0, 0.5, 1.2, 1e-6, 1000, true);
    assert!(out.terminated_early);
    assert_eq!(out.outcome, Outcome::Cancelled);
    assert!(out.iterations < 1000);
    assert_eq!(out.iterations, 0);
    assert_eq!(out.history.len(), 1);
}

#[test]
fn stagnates_when_no_step_improves() {
    // The objective is minimal at the start, but its estimated
    // gradient stays well above tolerance, so the search tries and
    // rejects every shrinking trial step exactly once.
    let vee = |x: &[f64]| x[0].abs() + x[1].abs();
    let out = run_descent(&vee, &[0.0, 0.0], 1.0, 0.5, 1.2, 1e-6, 1000, false);
    assert_eq!(out.outcome, Outcome::Stagnated);
    assert!(!out.terminated_early);
    assert_eq!(out.iterations, 0);
    assert_eq!(out.history.len(), 1);
}

#[test]
fn replay_is_identical() {
    let a = run_descent(&bowl, &[2.0, 2.0], 1.0, 0.5, 1.2, 1e-6, 1000, false);
    let b = run_descent(&bowl, &[2.0, 2.0], 1.0, 0.5, 1.2, 1e-6, 1000, false);
    assert_eq!(a.outcome, b.outcome);
    assert_eq!(a.iterations, b.iterations);
    assert_eq!(a.x, b.x);
    assert_eq!(a.f_x, b.f_x);
    assert_eq!(a.history, b.history);
    assert_eq!(a.evaluations, b.evaluations);
    assert_eq!(a.terminated_early, b.terminated_early);
}

#[test]
fn budget_exhaustion_reports_last_committed_step() {
    let out = run_descent(&bowl, &[2.0, 2.0], 1.0, 0.5, 1.2, 1e-12, 1, false);
    assert_eq!(out.outcome, Outcome::BudgetExhausted);
    assert!(!out.terminated_early);
    assert_eq!(out.iterations, 1);
    assert_eq!(out.history.len(), 2);
}
