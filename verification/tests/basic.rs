use ipopt_bridge::{InitialSolution, Number, PerformanceResults, ProblemSize, Tnlp};

struct TrivialProblem;

impl Tnlp for TrivialProblem {
    fn info(&self) -> ProblemSize {
        ProblemSize { n: 1, m: 0, nnz_jac: 0, nnz_hess: 0 }
    }

    fn get_nlp_info(&self) -> ProblemSize {
        ProblemSize { n: 1, m: 0, nnz_jac: 0, nnz_hess: 0 }
    }

    fn get_bounds_info(
        &self,
        x_l: &mut Vec<Number>,
        x_u: &mut Vec<Number>,
        _g_l: &mut Vec<Number>,
        _g_u: &mut Vec<Number>,
    ) {
        x_l[0] = Number::from_bits(0);
        x_u[0] = Number::one();
    }

    fn get_starting_point(&self) -> InitialSolution {
        InitialSolution::from_variables(vec![Number::zero()])
    }

    fn eval_f(&mut self, _x: &Vec<Number>, obj_value: &mut Number) -> bool {
        *obj_value = Number::one();
        true
    }

    fn eval_grad_f(&mut self, _x: &Vec<Number>, grad_f: &mut Vec<Number>) -> bool {
        grad_f[0] = Number::zero();
        true
    }

    fn eval_g(&mut self, _x: &Vec<Number>, _g: &mut Vec<Number>) -> bool {
        true
    }

    fn get_jacobian_sparsity(
        &mut self,
        _n: i32,
        _m: i32,
        _i_row: &mut Vec<i32>,
        _j_col: &mut Vec<i32>,
    ) {
    }

    fn eval_jac_g(&mut self, _x: &Vec<Number>, _m: i32, _values: &mut Vec<Number>) -> bool {
        true
    }

    fn get_hessian_sparsity(
        &mut self,
        _n: i32,
        _m: i32,
        _i_row: &mut Vec<i32>,
        _j_col: &mut Vec<i32>,
    ) {
    }

    fn eval_h(
        &mut self,
        _x: &Vec<Number>,
        _obj_factor: Number,
        _lambda: &Vec<Number>,
        _m: i32,
        _values: &mut Vec<Number>,
    ) -> bool {
        true
    }
}

#[test]
fn default_scaling_applies_no_scaling() {
    let problem = TrivialProblem;
    let mut obj_scaling = Number::zero();
    let mut x_scaling = vec![Number::zero(); 3];
    let mut g_scaling = vec![Number::zero(); 2];
    problem.get_scaling_parameters(&mut obj_scaling, &mut x_scaling, &mut g_scaling);
    assert_eq!(f64::from_bits(obj_scaling.to_bits()), 1.0);
    assert_eq!(x_scaling.len(), 3);
    assert_eq!(g_scaling.len(), 2);
    for factor in x_scaling.iter().chain(g_scaling.iter()) {
        assert_eq!(f64::from_bits(factor.to_bits()), 1.0);
    }
}

#[test]
fn no_scaling_fills_every_factor_with_one() {
    let mut obj_scaling = Number::zero();
    let mut x_scaling = vec![Number::zero(); 4];
    let mut g_scaling = vec![Number::zero(); 2];
    ipopt_bridge::tnlp::no_scaling(&mut obj_scaling, &mut x_scaling, &mut g_scaling);
    assert_eq!(f64::from_bits(obj_scaling.to_bits()), 1.0);
    assert_eq!(x_scaling.len(), 4);
    assert_eq!(g_scaling.len(), 2);
    for factor in x_scaling.iter().chain(g_scaling.iter()) {
        assert_eq!(f64::from_bits(factor.to_bits()), 1.0);
    }
}

#[test]
fn one_is_the_bit_pattern_of_floating_one() {
    assert_eq!(Number::one().to_bits(), 1.0f64.to_bits());
}

#[test]
fn from_variables_supplies_no_multipliers() {
    let init = InitialSolution::from_variables(vec![Number::one(), Number::zero()]);
    assert_eq!(init.x.len(), 2);
    assert!(init.z_l.is_none());
    assert!(init.z_u.is_none());
    assert!(init.lambda.is_none());
}

#[test]
fn trivial_problem_declares_its_info() {
    let problem = TrivialProblem;
    let size = problem.get_nlp_info();
    assert_eq!(size.n, 1);
    assert_eq!(size.m, 0);
}

#[test]
fn number_round_trips_bits() {
    let value = 17.014f64;
    let number = Number::from_bits(value.to_bits());
    assert_eq!(f64::from_bits(number.to_bits()), value);
}

#[test]
fn default_performance_counters_are_zero() {
    let perf = PerformanceResults::default();
    assert_eq!(perf.number_of_objective_evaluations, 0);
    assert_eq!(perf.number_of_hessian_evaluations, 0);
}
