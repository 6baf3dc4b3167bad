use rootfind::catalog::{select_system, SystemEquations};
use rootfind::error::SolveError;
use rootfind::fp::Fp;
use rootfind::solver::StepFlow;
use rootfind::system::{NewtonSystemMethod, SystemProbe, SystemSolution};
use rootfind::trace::StepRecord;

fn fp(x: f64) -> Fp {
    Fp { bits: x.to_bits() }
}

fn un(p: Fp) -> f64 {
    f64::from_bits(p.bits)
}

/// The catalog systems, evaluated the way the service's driver does.
fn eval(sys: &SystemEquations, x: f64, y: f64) -> (f64, f64) {
    match sys.get_function_index() {
        0 => (x.powi(2) + y.powi(2) - 4.0, -3.0 * x.powi(2) + y),
        1 => (
            x.powi(2) + x - y.powi(2) - 0.15,
            x.powi(2) - y + y.powi(2) + 0.17,
        ),
        _ => (2.0 * y - (x + 1.0).cos(), x + y.sin() + 0.4),
    }
}

fn run_system(
    eq_id: usize,
    x0: f64,
    y0: f64,
    tolerance: f64,
    limit: usize,
) -> Result<SystemSolution, SolveError> {
    let sys = select_system(eq_id)?;
    let mut run = NewtonSystemMethod::new(fp(x0), fp(y0), fp(tolerance), &sys, limit);
    let h = 0.0001;
    loop {
        let x = un(run.x0);
        let y = un(run.y0);
        let (g1, g2) = eval(&sys, x, y);
        let (g1_dx, g2_dx) = eval(&sys, x + h, y);
        let (g1_dy, g2_dy) = eval(&sys, x, y + h);
        let dxf = (g1_dx - g1) / h;
        let dyf = (g1_dy - g1) / h;
        let dxg = (g2_dx - g2) / h;
        let dyg = (g2_dy - g2) / h;
        let det = dxf * dyg - dyf * dxg;
        let singular = det == 0.0;
        let (b0, b1) = (-g1, -g2);
        let (dx, dy) = if singular {
            (0.0, 0.0)
        } else {
            ((b0 * dyg - b1 * dyf) / det, (dxf * b1 - dxg * b0) / det)
        };
        let x_next = x + dx;
        let y_next = y + dy;
        let step_norm = ((x_next - x).powi(2) + (y_next - y).powi(2)).sqrt();
        let probe = SystemProbe {
            singular,
            x_next: fp(x_next),
            y_next: fp(y_next),
            step_norm: fp(step_norm),
            within_tolerance: step_norm < tolerance,
        };
        match run.step(probe) {
            StepFlow::Continue => {}
            StepFlow::Converged => return Ok(run.finish()),
            StepFlow::Failed(e) => return Err(e),
        }
    }
}

#[test]
fn system_circle_parabola_scenario() {
    // g1 = x^2 + y^2 - 4, g2 = -3 x^2 + y, from (1, 1) with tolerance 1e-4:
    // converges in under 20 iterations to a point satisfying both residuals.
    let sol = run_system(0, 1.0, 1.0, 0.0001, 1_000).expect("must converge");
    assert!(sol.iterations < 20);
    assert!(un(sol.error_value) < 0.0001);
    let sys = select_system(0).unwrap();
    let (g1, g2) = eval(&sys, un(sol.x), un(sol.y));
    assert!(g1.abs() < 0.0001);
    assert!(g2.abs() < 0.0001);
    assert!((un(sol.x) - 0.7832).abs() < 0.001);
    assert!((un(sol.y) - 1.8403).abs() < 0.001);
    assert_eq!(sol.eq_id, 0);
    // The converging pass is logged but not counted.
    assert_eq!(sol.steps.len(), sol.iterations + 1);
}

#[test]
fn system_second_catalog_entry_converges() {
    let sol = run_system(1, 0.5, 0.5, 0.0001, 1_000).expect("must converge");
    let sys = select_system(1).unwrap();
    let (g1, g2) = eval(&sys, un(sol.x), un(sol.y));
    assert!(g1.abs() < 0.001);
    assert!(g2.abs() < 0.001);
}

#[test]
fn system_rerun_is_identical() {
    let first = run_system(0, 1.0, 1.0, 0.0001, 1_000).expect("must converge");
    let second = run_system(0, 1.0, 1.0, 0.0001, 1_000).expect("must converge");
    assert_eq!(first, second);
    assert_eq!(first.iterations, second.iterations);
}

#[test]
fn system_fails_on_singular_jacobian() {
    // The engine refuses the pass the moment the driver reports a zero
    // Jacobian determinant, and leaves the run untouched.
    let sys = select_system(0).unwrap();
    let mut run = NewtonSystemMethod::new(fp(1.0), fp(1.0), fp(0.0001), &sys, 1_000);
    let probe = SystemProbe {
        singular: true,
        x_next: fp(0.0),
        y_next: fp(0.0),
        step_norm: fp(0.0),
        within_tolerance: false,
    };
    let flow = run.step(probe);
    assert_eq!(flow, StepFlow::Failed(SolveError::SingularJacobian));
    assert_eq!(run.counter, 0);
    assert_eq!(run.trace.len(), 0);
    assert_eq!(un(run.x0), 1.0);
    assert_eq!(un(run.y0), 1.0);
}

#[test]
fn system_fails_when_iteration_cap_is_reached() {
    // A tolerance of zero is never satisfied, so the cap must fire.
    assert_eq!(run_system(0, 1.0, 1.0, 0.0, 2), Err(SolveError::NonConvergence));
}

#[test]
fn system_records_current_and_updated_points() {
    let sol = run_system(0, 1.0, 1.0, 0.0001, 1_000).expect("must converge");
    let records = sol.steps.records();
    for (i, rec) in records.iter().enumerate() {
        match rec {
            StepRecord::System { key, .. } => assert_eq!(*key, i),
            _ => panic!("the bivariate solver must log system records"),
        }
    }
    match records[0] {
        StepRecord::System { x, y, .. } => {
            assert_eq!(un(x), 1.0);
            assert_eq!(un(y), 1.0);
        }
        _ => panic!("the bivariate solver must log system records"),
    }
    // Consecutive records chain: each pass starts where the previous ended.
    for k in 0..records.len() - 1 {
        let (xn, yn) = match records[k] {
            StepRecord::System { x_next, y_next, .. } => (un(x_next), un(y_next)),
            _ => unreachable!(),
        };
        let (x, y) = match records[k + 1] {
            StepRecord::System { x, y, .. } => (un(x), un(y)),
            _ => unreachable!(),
        };
        assert_eq!(x, xn);
        assert_eq!(y, yn);
    }
}
