use std::cell::Cell;
use std::rc::Rc;

use ipopt_bridge::{
    Application, EngineDriver, HessianRequest, InitialSolution, JacobianRequest, Number,
    OptimizeError, ProblemSize, SolverInterface, Tnlp, UserData,
};

fn num(value: f64) -> Number {
    Number::from_bits(value.to_bits())
}

fn val(number: &Number) -> f64 {
    f64::from_bits(number.to_bits())
}

fn vals(numbers: &[Number]) -> Vec<f64> {
    numbers.iter().map(val).collect()
}

/// An engine stub that records every lifecycle call, drives one
/// protocol-conforming round of callbacks during the solve, and then writes
/// a configured final point into the output buffers.
struct RecordingEngine {
    creates: u32,
    frees: u32,
    recorded_size: Option<ProblemSize>,
    recorded_x_l: Vec<f64>,
    recorded_x_u: Vec<f64>,
    recorded_g_l: Vec<f64>,
    recorded_g_u: Vec<f64>,
    recorded_index_base: i32,
    int_options: Vec<(String, i32)>,
    numeric_options: Vec<(String, f64)>,
    string_options: Vec<(String, String)>,
    initial_x: Vec<f64>,
    initial_lambda: Vec<f64>,
    initial_z_l: Vec<f64>,
    initial_z_u: Vec<f64>,
    solves: u32,
    final_x: Vec<f64>,
    final_objective: f64,
    status: i32,
}

impl RecordingEngine {
    fn new(final_x: Vec<f64>, final_objective: f64, status: i32) -> RecordingEngine {
        RecordingEngine {
            creates: 0,
            frees: 0,
            recorded_size: None,
            recorded_x_l: Vec::new(),
            recorded_x_u: Vec::new(),
            recorded_g_l: Vec::new(),
            recorded_g_u: Vec::new(),
            recorded_index_base: -1,
            int_options: Vec::new(),
            numeric_options: Vec::new(),
            string_options: Vec::new(),
            initial_x: Vec::new(),
            initial_lambda: Vec::new(),
            initial_z_l: Vec::new(),
            initial_z_u: Vec::new(),
            solves: 0,
            final_x,
            final_objective,
            status,
        }
    }

    fn idle() -> RecordingEngine {
        RecordingEngine::new(Vec::new(), 0.0, 0)
    }
}

impl<P: Tnlp> SolverInterface<P> for RecordingEngine {
    fn create_problem(
        &mut self,
        size: &ProblemSize,
        x_l: &Vec<Number>,
        x_u: &Vec<Number>,
        g_l: &Vec<Number>,
        g_u: &Vec<Number>,
        index_base: i32,
    ) {
        self.creates += 1;
        self.recorded_size = Some(*size);
        self.recorded_x_l = vals(x_l);
        self.recorded_x_u = vals(x_u);
        self.recorded_g_l = vals(g_l);
        self.recorded_g_u = vals(g_u);
        self.recorded_index_base = index_base;
    }

    fn add_integer_option(&mut self, name: &str, value: i32) {
        self.int_options.push((name.to_string(), value));
    }

    fn add_numeric_option(&mut self, name: &str, value: Number) {
        self.numeric_options.push((name.to_string(), val(&value)));
    }

    fn add_string_option(&mut self, name: &str, value: &str) {
        self.string_options.push((name.to_string(), value.to_string()));
    }

    fn solve(
        &mut self,
        user_data: &mut UserData<P>,
        x: &mut Vec<Number>,
        _g: &mut Vec<Number>,
        objective: &mut Number,
        lambda: &mut Vec<Number>,
        z_l: &mut Vec<Number>,
        z_u: &mut Vec<Number>,
    ) -> i32 {
        self.solves += 1;
        self.initial_x = vals(x);
        self.initial_lambda = vals(lambda);
        self.initial_z_l = vals(z_l);
        self.initial_z_u = vals(z_u);

        let _ = user_data.jacobian_callback(JacobianRequest::SparsityQuery);
        let _ = user_data.hessian_callback(HessianRequest::SparsityQuery);
        let _ = user_data.objective_callback(x);
        let _ = user_data.gradient_callback(x);
        let _ = user_data.constraints_callback(x);
        let _ = user_data.jacobian_callback(JacobianRequest::ValueEvaluation { x: x.clone() });
        let _ = user_data.hessian_callback(HessianRequest::ValueEvaluation {
            x: x.clone(),
            obj_factor: num(1.0),
            lambda: lambda.clone(),
        });

        for (i, value) in self.final_x.iter().enumerate() {
            if i < x.len() {
                x[i] = num(*value);
            }
        }
        *objective = num(self.final_objective);
        self.status
    }

    fn free_problem(&mut self) {
        self.frees += 1;
    }
}

/// The standard four-variable, two-constraint quartic benchmark problem.
struct Hs071 {
    info_calls: Rc<Cell<u32>>,
    bounds_calls: Rc<Cell<u32>>,
    start_calls: Rc<Cell<u32>>,
    with_multipliers: bool,
    size: ProblemSize,
}

impl Hs071 {
    fn new() -> Hs071 {
        Hs071 {
            info_calls: Rc::new(Cell::new(0)),
            bounds_calls: Rc::new(Cell::new(0)),
            start_calls: Rc::new(Cell::new(0)),
            with_multipliers: false,
            size: ProblemSize { n: 4, m: 2, nnz_jac: 8, nnz_hess: 10 },
        }
    }
}

impl Tnlp for Hs071 {
    fn info(&self) -> ProblemSize {
        self.size
    }

    fn get_nlp_info(&self) -> ProblemSize {
        self.info_calls.set(self.info_calls.get() + 1);
        self.size
    }

    fn get_bounds_info(
        &self,
        x_l: &mut Vec<Number>,
        x_u: &mut Vec<Number>,
        g_l: &mut Vec<Number>,
        g_u: &mut Vec<Number>,
    ) {
        self.bounds_calls.set(self.bounds_calls.get() + 1);
        for slot in x_l.iter_mut() {
            *slot = num(1.0);
        }
        for slot in x_u.iter_mut() {
            *slot = num(5.0);
        }
        g_l[0] = num(25.0);
        g_u[0] = num(2e19);
        g_l[1] = num(40.0);
        g_u[1] = num(40.0);
    }

    fn get_starting_point(&self) -> InitialSolution {
        self.start_calls.set(self.start_calls.get() + 1);
        let x = vec![num(1.0), num(5.0), num(5.0), num(1.0)];
        if self.with_multipliers {
            InitialSolution {
                x,
                z_l: Some(vec![num(0.5); 4]),
                z_u: Some(vec![num(0.25); 4]),
                lambda: Some(vec![num(2.0), num(3.0)]),
            }
        } else {
            InitialSolution::from_variables(x)
        }
    }

    fn eval_f(&mut self, x: &Vec<Number>, obj_value: &mut Number) -> bool {
        let x = vals(x);
        *obj_value = num(x[0] * x[3] * (x[0] + x[1] + x[2]) + x[2]);
        true
    }

    fn eval_grad_f(&mut self, x: &Vec<Number>, grad_f: &mut Vec<Number>) -> bool {
        let x = vals(x);
        grad_f[0] = num(x[0] * x[3] + x[3] * (x[0] + x[1] + x[2]));
        grad_f[1] = num(x[0] * x[3]);
        grad_f[2] = num(x[0] * x[3] + 1.0);
        grad_f[3] = num(x[0] * (x[0] + x[1] + x[2]));
        true
    }

    fn eval_g(&mut self, x: &Vec<Number>, g: &mut Vec<Number>) -> bool {
        let x = vals(x);
        g[0] = num(x[0] * x[1] * x[2] * x[3]);
        g[1] = num(x[0] * x[0] + x[1] * x[1] + x[2] * x[2] + x[3] * x[3]);
        true
    }

    fn get_jacobian_sparsity(
        &mut self,
        _n: i32,
        _m: i32,
        i_row: &mut Vec<i32>,
        j_col: &mut Vec<i32>,
    ) {
        for k in 0..8 {
            i_row[k] = (k / 4) as i32;
            j_col[k] = (k % 4) as i32;
        }
    }

    fn eval_jac_g(&mut self, x: &Vec<Number>, _m: i32, values: &mut Vec<Number>) -> bool {
        let x = vals(x);
        values[0] = num(x[1] * x[2] * x[3]);
        values[1] = num(x[0] * x[2] * x[3]);
        values[2] = num(x[0] * x[1] * x[3]);
        values[3] = num(x[0] * x[1] * x[2]);
        values[4] = num(2.0 * x[0]);
        values[5] = num(2.0 * x[1]);
        values[6] = num(2.0 * x[2]);
        values[7] = num(2.0 * x[3]);
        true
    }

    fn get_hessian_sparsity(
        &mut self,
        n: i32,
        _m: i32,
        i_row: &mut Vec<i32>,
        j_col: &mut Vec<i32>,
    ) {
        let mut idx = 0;
        for row in 0..n {
            for col in 0..=row {
                i_row[idx] = row;
                j_col[idx] = col;
                idx += 1;
            }
        }
    }

    fn eval_h(
        &mut self,
        x: &Vec<Number>,
        obj_factor: Number,
        lambda: &Vec<Number>,
        _m: i32,
        values: &mut Vec<Number>,
    ) -> bool {
        let x = vals(x);
        let obj_factor = val(&obj_factor);
        let lambda = vals(lambda);
        values[0] = num(obj_factor * 2.0 * x[3] + lambda[1] * 2.0);
        values[1] = num(obj_factor * x[3] + lambda[0] * x[2] * x[3]);
        values[2] = num(lambda[1] * 2.0);
        values[3] = num(obj_factor * x[3] + lambda[0] * x[1] * x[3]);
        values[4] = num(lambda[0] * x[0] * x[3]);
        values[5] = num(lambda[1] * 2.0);
        values[6] = num(obj_factor * (2.0 * x[0] + x[1] + x[2]) + lambda[0] * x[1] * x[2]);
        values[7] = num(obj_factor * x[0] + lambda[0] * x[0] * x[2]);
        values[8] = num(obj_factor * x[0] + lambda[0] * x[0] * x[1]);
        values[9] = num(lambda[1] * 2.0);
        true
    }
}

/// A problem that declares a dimension outside the native integer width's
/// count range.
struct NegativeSizeProblem;

impl Tnlp for NegativeSizeProblem {
    fn info(&self) -> ProblemSize {
        ProblemSize { n: -1, m: 0, nnz_jac: 0, nnz_hess: 0 }
    }

    fn get_nlp_info(&self) -> ProblemSize {
        ProblemSize { n: -1, m: 0, nnz_jac: 0, nnz_hess: 0 }
    }

    fn get_bounds_info(
        &self,
        _x_l: &mut Vec<Number>,
        _x_u: &mut Vec<Number>,
        _g_l: &mut Vec<Number>,
        _g_u: &mut Vec<Number>,
    ) {
    }

    fn get_starting_point(&self) -> InitialSolution {
        InitialSolution::from_variables(Vec::new())
    }

    fn eval_f(&mut self, _x: &Vec<Number>, _obj_value: &mut Number) -> bool {
        false
    }

    fn eval_grad_f(&mut self, _x: &Vec<Number>, _grad_f: &mut Vec<Number>) -> bool {
        false
    }

    fn eval_g(&mut self, _x: &Vec<Number>, _g: &mut Vec<Number>) -> bool {
        false
    }

    fn get_jacobian_sparsity(
        &mut self,
        _n: i32,
        _m: i32,
        _i_row: &mut Vec<i32>,
        _j_col: &mut Vec<i32>,
    ) {
    }

    fn eval_jac_g(&mut self, _x: &Vec<Number>, _m: i32, _values: &mut Vec<Number>) -> bool {
        false
    }

    fn get_hessian_sparsity(
        &mut self,
        _n: i32,
        _m: i32,
        _i_row: &mut Vec<i32>,
        _j_col: &mut Vec<i32>,
    ) {
    }

    fn eval_h(
        &mut self,
        _x: &Vec<Number>,
        _obj_factor: Number,
        _lambda: &Vec<Number>,
        _m: i32,
        _values: &mut Vec<Number>,
    ) -> bool {
        false
    }
}

const HS071_OPTIMUM_X: [f64; 4] = [1.0, 4.742_999_64, 3.821_149_98, 1.379_408_29];
const HS071_OPTIMUM_OBJECTIVE: f64 = 17.014_017_3;

#[test]
fn setup_queries_are_made_exactly_once() {
    let problem = Hs071::new();
    let info_calls = Rc::clone(&problem.info_calls);
    let bounds_calls = Rc::clone(&problem.bounds_calls);
    let start_calls = Rc::clone(&problem.start_calls);
    let mut engine = EngineDriver::new(RecordingEngine::idle());
    let app = Application::new();

    let result = app.optimize_tnlp(problem, &mut engine);
    let engine = engine.into_engine();
    assert!(result.is_ok());
    assert_eq!(info_calls.get(), 1);
    assert_eq!(bounds_calls.get(), 1);
    assert_eq!(start_calls.get(), 1);
    assert_eq!(engine.solves, 1);
    assert_eq!(engine.creates, 1);
    assert_eq!(engine.frees, 1);
}

#[test]
fn benchmark_problem_round_trips_through_a_scripted_solve() {
    let problem = Hs071::new();
    let mut engine = EngineDriver::new(
        RecordingEngine::new(HS071_OPTIMUM_X.to_vec(), HS071_OPTIMUM_OBJECTIVE, 0),
    );
    let mut app = Application::new();
    app.set_string_option("linear_solver".to_string(), "mumps".to_string());
    app.set_string_option("mu_strategy".to_string(), "adaptive".to_string());
    app.set_numeric_option("tol".to_string(), num(3.82e-6));

    let result = app.optimize_tnlp(problem, &mut engine).unwrap();
    let engine = engine.into_engine();

    assert_eq!(engine.recorded_size, Some(ProblemSize { n: 4, m: 2, nnz_jac: 8, nnz_hess: 10 }));
    assert_eq!(engine.recorded_index_base, 0);
    assert_eq!(engine.recorded_x_l, vec![1.0; 4]);
    assert_eq!(engine.recorded_x_u, vec![5.0; 4]);
    assert_eq!(engine.recorded_g_l, vec![25.0, 40.0]);
    assert_eq!(engine.recorded_g_u, vec![2e19, 40.0]);
    assert_eq!(engine.initial_x, vec![1.0, 5.0, 5.0, 1.0]);
    assert_eq!(engine.string_options.len(), 2);
    assert_eq!(engine.numeric_options, vec![("tol".to_string(), 3.82e-6)]);

    assert_eq!(result.status, 0);
    let x = vals(&result.solution.x);
    for (got, expected) in x.iter().zip(HS071_OPTIMUM_X.iter()) {
        assert!((got - expected).abs() < 1e-9);
    }
    assert!((val(&result.solution.objective) - 17.014_017_3).abs() < 1e-6);

    assert_eq!(result.performance.number_of_objective_evaluations, 1);
    assert_eq!(result.performance.number_of_objective_gradient_evaluations, 1);
    assert_eq!(result.performance.number_of_constraint_evaluations, 1);
    assert_eq!(result.performance.number_of_jacobian_evaluations, 2);
    assert_eq!(result.performance.number_of_hessian_evaluations, 2);
}

#[test]
fn missing_multipliers_default_to_all_ones_of_declared_length() {
    let problem = Hs071::new();
    let mut engine = EngineDriver::new(RecordingEngine::idle());
    let app = Application::new();

    let result = app.optimize_tnlp(problem, &mut engine).unwrap();
    let engine = engine.into_engine();
    assert_eq!(engine.initial_z_l, vec![1.0; 4]);
    assert_eq!(engine.initial_z_u, vec![1.0; 4]);
    assert_eq!(engine.initial_lambda, vec![1.0; 2]);
    assert_eq!(result.solution.z_l.len(), 4);
    assert_eq!(result.solution.z_u.len(), 4);
    assert_eq!(result.solution.lambda.len(), 2);
}

#[test]
fn supplied_multipliers_are_passed_through_unchanged() {
    let mut problem = Hs071::new();
    problem.with_multipliers = true;
    let mut engine = EngineDriver::new(RecordingEngine::idle());
    let app = Application::new();

    let _ = app.optimize_tnlp(problem, &mut engine).unwrap();
    let engine = engine.into_engine();
    assert_eq!(engine.initial_z_l, vec![0.5; 4]);
    assert_eq!(engine.initial_z_u, vec![0.25; 4]);
    assert_eq!(engine.initial_lambda, vec![2.0, 3.0]);
}

#[test]
fn negative_dimension_aborts_before_any_engine_call() {
    let mut engine = EngineDriver::new(RecordingEngine::idle());
    let app = Application::new();
    let result = app.optimize_tnlp(NegativeSizeProblem, &mut engine);
    let engine = engine.into_engine();
    assert_eq!(result, Err(OptimizeError::DimensionOverflow));
    assert_eq!(engine.creates, 0);
    assert_eq!(engine.solves, 0);
}

#[test]
fn embedded_zero_byte_in_option_name_aborts_and_frees_the_handle() {
    let mut engine = EngineDriver::new(RecordingEngine::idle());
    let mut app = Application::new();
    app.set_integer_option("max\u{0}iter".to_string(), 100);
    let result = app.optimize_tnlp(Hs071::new(), &mut engine);
    let engine = engine.into_engine();
    assert_eq!(result, Err(OptimizeError::InvalidOptionString));
    assert_eq!(engine.creates, 1);
    assert_eq!(engine.frees, 1);
    assert_eq!(engine.solves, 0);
}

#[test]
fn embedded_zero_byte_in_string_option_value_aborts_and_frees_the_handle() {
    let mut engine = EngineDriver::new(RecordingEngine::idle());
    let mut app = Application::new();
    app.set_string_option("linear_solver".to_string(), "mu\u{0}mps".to_string());
    let result = app.optimize_tnlp(Hs071::new(), &mut engine);
    let engine = engine.into_engine();
    assert_eq!(result, Err(OptimizeError::InvalidOptionString));
    assert_eq!(engine.creates, 1);
    assert_eq!(engine.frees, 1);
    assert_eq!(engine.solves, 0);
}

#[test]
fn status_code_is_stored_verbatim() {
    let problem = Hs071::new();
    let mut engine = EngineDriver::new(
        RecordingEngine::new(vec![1.0, 4.743, 3.821, 1.379], 17.014, -2),
    );
    let app = Application::new();
    let result = app.optimize_tnlp(problem, &mut engine).unwrap();
    assert_eq!(result.status, -2);
}
