use ipopt_bridge::{
    Application, EngineDriver, InitialSolution, Number, ProblemSize, SolverInterface, Tnlp,
    UserData,
};

fn num(value: f64) -> Number {
    Number::from_bits(value.to_bits())
}

/// A one-variable, unconstrained problem with constant replies; only the
/// option plumbing matters to these tests.
struct TinyProblem;

const TINY: ProblemSize = ProblemSize { n: 1, m: 0, nnz_jac: 0, nnz_hess: 1 };

impl Tnlp for TinyProblem {
    fn info(&self) -> ProblemSize {
        TINY
    }

    fn get_nlp_info(&self) -> ProblemSize {
        TINY
    }

    fn get_bounds_info(
        &self,
        x_l: &mut Vec<Number>,
        x_u: &mut Vec<Number>,
        _g_l: &mut Vec<Number>,
        _g_u: &mut Vec<Number>,
    ) {
        x_l[0] = num(0.0);
        x_u[0] = num(10.0);
    }

    fn get_starting_point(&self) -> InitialSolution {
        InitialSolution::from_variables(vec![num(5.0)])
    }

    fn eval_f(&mut self, _x: &Vec<Number>, obj_value: &mut Number) -> bool {
        *obj_value = num(1.0);
        true
    }

    fn eval_grad_f(&mut self, _x: &Vec<Number>, grad_f: &mut Vec<Number>) -> bool {
        grad_f[0] = num(0.0);
        true
    }

    fn eval_g(&mut self, _x: &Vec<Number>, _g: &mut Vec<Number>) -> bool {
        true
    }

    fn get_jacobian_sparsity(
        &mut self,
        _n: i32,
        _m: i32,
        _i_row: &mut Vec<i32>,
        _j_col: &mut Vec<i32>,
    ) {
    }

    fn eval_jac_g(&mut self, _x: &Vec<Number>, _m: i32, _values: &mut Vec<Number>) -> bool {
        true
    }

    fn get_hessian_sparsity(
        &mut self,
        _n: i32,
        _m: i32,
        i_row: &mut Vec<i32>,
        j_col: &mut Vec<i32>,
    ) {
        i_row[0] = 0;
        j_col[0] = 0;
    }

    fn eval_h(
        &mut self,
        _x: &Vec<Number>,
        _obj_factor: Number,
        _lambda: &Vec<Number>,
        _m: i32,
        values: &mut Vec<Number>,
    ) -> bool {
        values[0] = num(2.0);
        true
    }
}

/// An engine stub that only records the options pushed into it.
struct OptionRecorder {
    int_options: Vec<(String, i32)>,
    numeric_options: Vec<(String, f64)>,
    string_options: Vec<(String, String)>,
}

impl OptionRecorder {
    fn new() -> OptionRecorder {
        OptionRecorder { int_options: Vec::new(), numeric_options: Vec::new(), string_options: Vec::new() }
    }

    fn sorted_ints(&self) -> Vec<(String, i32)> {
        let mut sorted = self.int_options.clone();
        sorted.sort();
        sorted
    }
}

impl<P: Tnlp> SolverInterface<P> for OptionRecorder {
    fn create_problem(
        &mut self,
        _size: &ProblemSize,
        _x_l: &Vec<Number>,
        _x_u: &Vec<Number>,
        _g_l: &Vec<Number>,
        _g_u: &Vec<Number>,
        _index_base: i32,
    ) {
    }

    fn add_integer_option(&mut self, name: &str, value: i32) {
        self.int_options.push((name.to_string(), value));
    }

    fn add_numeric_option(&mut self, name: &str, value: Number) {
        self.numeric_options.push((name.to_string(), f64::from_bits(value.to_bits())));
    }

    fn add_string_option(&mut self, name: &str, value: &str) {
        self.string_options.push((name.to_string(), value.to_string()));
    }

    fn solve(
        &mut self,
        _user_data: &mut UserData<P>,
        _x: &mut Vec<Number>,
        _g: &mut Vec<Number>,
        _objective: &mut Number,
        _lambda: &mut Vec<Number>,
        _z_l: &mut Vec<Number>,
        _z_u: &mut Vec<Number>,
    ) -> i32 {
        0
    }

    fn free_problem(&mut self) {}
}

#[test]
fn setting_the_same_option_twice_applies_only_the_last_value() {
    let mut app = Application::new();
    app.set_integer_option("max_iter".to_string(), 500);
    app.set_integer_option("max_iter".to_string(), 100);
    let mut engine = EngineDriver::new(OptionRecorder::new());
    let result = app.optimize_tnlp(TinyProblem, &mut engine);
    let engine = engine.into_engine();
    assert!(result.is_ok());
    assert_eq!(engine.int_options, vec![("max_iter".to_string(), 100)]);
}

#[test]
fn setting_the_same_option_twice_in_every_category_keeps_the_last_value() {
    let mut app = Application::new();
    app.set_numeric_option("tol".to_string(), num(1e-2));
    app.set_numeric_option("tol".to_string(), num(1e-8));
    app.set_string_option("mu_strategy".to_string(), "monotone".to_string());
    app.set_string_option("mu_strategy".to_string(), "adaptive".to_string());
    let mut engine = EngineDriver::new(OptionRecorder::new());
    let result = app.optimize_tnlp(TinyProblem, &mut engine);
    let engine = engine.into_engine();
    assert!(result.is_ok());
    assert_eq!(engine.numeric_options, vec![("tol".to_string(), 1e-8)]);
    assert_eq!(engine.string_options, vec![("mu_strategy".to_string(), "adaptive".to_string())]);
}

#[test]
fn option_order_within_a_category_does_not_change_what_is_configured() {
    let mut first = Application::new();
    first.set_integer_option("max_iter".to_string(), 500);
    first.set_integer_option("print_level".to_string(), 3);
    let mut second = Application::new();
    second.set_integer_option("print_level".to_string(), 3);
    second.set_integer_option("max_iter".to_string(), 500);

    let mut first_engine = EngineDriver::new(OptionRecorder::new());
    let mut second_engine = EngineDriver::new(OptionRecorder::new());
    assert!(first.optimize_tnlp(TinyProblem, &mut first_engine).is_ok());
    assert!(second.optimize_tnlp(TinyProblem, &mut second_engine).is_ok());
    let first_engine = first_engine.into_engine();
    let second_engine = second_engine.into_engine();
    assert_eq!(first_engine.sorted_ints(), second_engine.sorted_ints());
}

#[test]
fn options_of_all_categories_reach_the_engine() {
    let mut app = Application::new();
    app.set_integer_option("max_iter".to_string(), 500);
    app.set_numeric_option("tol".to_string(), num(3.82e-6));
    app.set_string_option("linear_solver".to_string(), "mumps".to_string());
    let mut engine = EngineDriver::new(OptionRecorder::new());
    assert!(app.optimize_tnlp(TinyProblem, &mut engine).is_ok());
    let engine = engine.into_engine();
    assert_eq!(engine.int_options, vec![("max_iter".to_string(), 500)]);
    assert_eq!(engine.numeric_options, vec![("tol".to_string(), 3.82e-6)]);
    assert_eq!(engine.string_options, vec![("linear_solver".to_string(), "mumps".to_string())]);
}
