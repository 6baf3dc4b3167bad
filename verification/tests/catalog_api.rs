use rootfind::catalog::{select_equation, select_system, Equation, SystemEquations};
use rootfind::error::SolveError;
use rootfind::fp::Fp;
use rootfind::solver::{select_method, MethodType, Solver};
use rootfind::trace::{StepRecord, StepTrace};

#[test]
fn select_equation_accepts_catalog_ids() {
    for id in 0..4usize {
        let eq = select_equation(id).expect("catalog id must be accepted");
        assert_eq!(eq.get_function_index(), id);
    }
}

#[test]
fn select_equation_rejects_out_of_range_ids() {
    assert_eq!(select_equation(4), Err(SolveError::InvalidSelector));
    assert_eq!(select_equation(100), Err(SolveError::InvalidSelector));
}

#[test]
fn select_method_accepts_catalog_ids() {
    assert_eq!(select_method(0), Ok(MethodType::HalfDivision));
    assert_eq!(select_method(1), Ok(MethodType::Iteration));
    assert_eq!(select_method(2), Ok(MethodType::Newton));
    assert_eq!(select_method(3), Ok(MethodType::Secant));
    for id in 0..4usize {
        assert_eq!(select_method(id).unwrap().get_method_index(), id);
    }
}

#[test]
fn select_method_rejects_out_of_range_ids() {
    assert_eq!(select_method(4), Err(SolveError::InvalidSelector));
    assert_eq!(select_method(17), Err(SolveError::InvalidSelector));
}

#[test]
fn select_system_accepts_catalog_ids() {
    for id in 0..3usize {
        let sys = select_system(id).expect("catalog id must be accepted");
        assert_eq!(sys.get_function_index(), id);
    }
}

#[test]
fn select_system_rejects_out_of_range_ids() {
    assert_eq!(select_system(3), Err(SolveError::InvalidSelector));
    assert_eq!(select_system(9), Err(SolveError::InvalidSelector));
}

#[test]
fn equation_new_maps_ids_in_order() {
    assert_eq!(Equation::new(0), Equation::Equation1);
    assert_eq!(Equation::new(1), Equation::Equation2);
    assert_eq!(Equation::new(2), Equation::Equation3);
    assert_eq!(Equation::new(3), Equation::Equation4);
}

#[test]
fn system_equations_new_maps_ids_in_order() {
    assert_eq!(SystemEquations::new(0), SystemEquations::EquationSystem1);
    assert_eq!(SystemEquations::new(1), SystemEquations::EquationSystem2);
    assert_eq!(SystemEquations::new(2), SystemEquations::EquationSystem3);
}

#[test]
fn solver_new_starts_with_zero_counter() {
    let eq = Equation::new(2);
    let solver = Solver::new(&eq, MethodType::Newton);
    assert_eq!(solver.equation, Equation::Equation3);
    assert_eq!(solver.method, MethodType::Newton);
    assert_eq!(solver.n, 0);
}

#[test]
fn step_trace_appends_in_order() {
    let mut trace = StepTrace::new();
    assert_eq!(trace.len(), 0);
    let first = StepRecord::Bisection {
        key: 0,
        a: Fp { bits: 1 },
        b: Fp { bits: 2 },
        x: Fp { bits: 3 },
        fa: Fp { bits: 4 },
        fb: Fp { bits: 5 },
        fx: Fp { bits: 6 },
        abs_diff: Fp { bits: 7 },
    };
    let second = StepRecord::FixedPoint {
        key: 1,
        x_k: Fp { bits: 8 },
        x_k_plus_one: Fp { bits: 9 },
        f_x_k: Fp { bits: 10 },
        abs_diff: Fp { bits: 11 },
    };
    trace.push(first);
    trace.push(second);
    assert_eq!(trace.len(), 2);
    assert_eq!(trace.records()[0], first);
    assert_eq!(trace.records()[1], second);
}
