//! The problem contract: what a user implements to describe a nonlinear
//! problem in standard triplet matrix form with dense vectors.

use vstd::prelude::*;

use crate::numeric::Number;
use crate::numeric::ONE_BITS;
use crate::numeric::repeated;

verus! {

/// The dimensions of a nonlinear problem, declared once per optimization run.
#[derive(Clone, Copy, Debug, PartialEq, Eq, Structural)]
pub struct ProblemSize {
    /// The number of variables in the problem.
    pub n: i32,
    /// The number of constraints in the problem.
    pub m: i32,
    /// The number of non-zero elements in the Jacobian of the constraints.
    pub nnz_jac: i32,
    /// The number of non-zero elements in the Hessian of the Lagrangian.
    pub nnz_hess: i32,
}

impl ProblemSize {
    /// Every dimension is representable as an unsigned count. Only
    /// representability decides whether a solve can start.
    pub open spec fn non_negative(self) -> bool {
        &&& self.n >= 0
        &&& self.m >= 0
        &&& self.nnz_jac >= 0
        &&& self.nnz_hess >= 0
    }

    /// The declared dimensions are consistent: beside representability, the
    /// Jacobian has at most one entry per slot of the `m` by `n` constraint
    /// matrix, and the Hessian at most one per slot of the lower triangle of
    /// the `n` by `n` matrix (its symmetric storage form).
    pub open spec fn wf(self) -> bool {
        &&& self.non_negative()
        &&& self.nnz_jac <= self.m * self.n
        &&& 2 * self.nnz_hess <= self.n * (self.n + 1)
    }
}

/// An initial point for a nonlinear problem. Only the variable values are
/// required; multipliers left out are defaulted by the orchestrator before
/// the solver engine sees them.
#[derive(Clone, Debug, PartialEq, Eq)]
pub struct InitialSolution {
    /// The initial variable values, one per variable.
    pub x: Vec<Number>,
    /// The initial lower bound multipliers, one per variable, if supplied.
    pub z_l: Option<Vec<Number>>,
    /// The initial upper bound multipliers, one per variable, if supplied.
    pub z_u: Option<Vec<Number>>,
    /// The initial constraint multipliers, one per constraint, if supplied.
    pub lambda: Option<Vec<Number>>,
}

impl InitialSolution {
    /// Every supplied buffer has the length the problem dimensions demand.
    pub open spec fn wf_for(self, size: ProblemSize) -> bool {
        size.non_negative() ==> {
            &&& self.x@.len() == size.n
            &&& (self.z_l is Some ==> self.z_l.unwrap()@.len() == size.n)
            &&& (self.z_u is Some ==> self.z_u.unwrap()@.len() == size.n)
            &&& (self.lambda is Some ==> self.lambda.unwrap()@.len() == size.m)
        }
    }

    /// An initial point giving only variable values, no multipliers.
    pub fn from_variables(x: Vec<Number>) -> (r: InitialSolution)
        ensures
            r.x == x,
            r.z_l is None,
            r.z_u is None,
            r.lambda is None,
    {
        InitialSolution { x, z_l: None, z_u: None, lambda: None }
    }
}

/// The supplied multipliers, or the all-ones default of length `len` when
/// none were supplied.
pub fn multipliers_or_default(supplied: Option<Vec<Number>>, len: usize) -> (v: Vec<Number>)
    ensures
        supplied is Some ==> v == supplied.unwrap(),
        supplied is None ==> v@.len() == len && (forall|i: int| 0 <= i < len ==> v@[i]@
            == ONE_BITS),
{
    match supplied {
        Some(values) => values,
        None => repeated(len, Number::one()),
    }
}

/// Fills the scaling outputs for an unscaled problem: the objective factor
/// and every variable and constraint factor become one, with the buffer
/// lengths kept.
pub fn no_scaling(
    obj_scaling: &mut Number,
    x_scaling: &mut Vec<Number>,
    g_scaling: &mut Vec<Number>,
)
    ensures
        final(obj_scaling)@ == ONE_BITS,
        final(x_scaling)@.len() == old(x_scaling)@.len(),
        forall|i: int| 0 <= i < final(x_scaling)@.len() ==> final(x_scaling)@[i]@ == ONE_BITS,
        final(g_scaling)@.len() == old(g_scaling)@.len(),
        forall|i: int| 0 <= i < final(g_scaling)@.len() ==> final(g_scaling)@[i]@ == ONE_BITS,
{
    *obj_scaling = Number::one();
    let x_len = x_scaling.len();
    let g_len = g_scaling.len();
    *x_scaling = repeated(x_len, Number::one());
    *g_scaling = repeated(g_len, Number::one());
}

/// A trait for nonlinear problems that use standard triplet matrix form and
/// dense vectors. One implementation describes one problem; the orchestrator
/// queries it for dimensions, bounds and a starting point, and the solver
/// engine evaluates it repeatedly through the session callbacks.
pub trait Tnlp: Sized {
    /// The problem dimensions this implementation describes.
    spec fn info(&self) -> ProblemSize;

    /// Gets the initial information about the problem. Called exactly once
    /// per optimization run, before any buffer is allocated. A declaration
    /// whose dimensions are representable keeps the sparsity counts within
    /// their matrices.
    fn get_nlp_info(&self) -> (size: ProblemSize)
        ensures
            size == self.info(),
            size.non_negative() ==> size.wf(),
    ;

    /// Gets the bounds on the variables and constraints, filling the four
    /// buffers in place. Called exactly once per optimization run, with
    /// `x_l`, `x_u` of length `n` and `g_l`, `g_u` of length `m`. Equality
    /// constraints are encoded by an equal lower and upper bound.
    fn get_bounds_info(
        &self,
        x_l: &mut Vec<Number>,
        x_u: &mut Vec<Number>,
        g_l: &mut Vec<Number>,
        g_u: &mut Vec<Number>,
    )
        ensures
            final(x_l)@.len() == old(x_l)@.len(),
            final(x_u)@.len() == old(x_u)@.len(),
            final(g_l)@.len() == old(g_l)@.len(),
            final(g_u)@.len() == old(g_u)@.len(),
    ;

    /// Gets the problem scaling parameters. Only consulted when the solver is
    /// configured for user scaling. The default implementation is
    /// [`no_scaling`], whose contract fixes every factor to one; the trait
    /// clauses here stay at length preservation so that overriding
    /// implementations may scale as they choose.
    fn get_scaling_parameters(
        &self,
        obj_scaling: &mut Number,
        x_scaling: &mut Vec<Number>,
        g_scaling: &mut Vec<Number>,
    )
        ensures
            final(x_scaling)@.len() == old(x_scaling)@.len(),
            final(g_scaling)@.len() == old(g_scaling)@.len(),
    {
        no_scaling(obj_scaling, x_scaling, g_scaling);
    }

    /// Gets the initial point for the problem. Called exactly once per
    /// optimization run, before the solve.
    fn get_starting_point(&self) -> (init: InitialSolution)
        ensures
            init.wf_for(self.info()),
    ;

    /// Evaluates the objective function at `x`, writing the value into
    /// `obj_value`. Returns whether the evaluation succeeded.
    fn eval_f(&mut self, x: &Vec<Number>, obj_value: &mut Number) -> (ok: bool);

    /// Evaluates the gradient of the objective function at `x`, filling
    /// `grad_f` (one slot per variable) in place. Returns whether the
    /// evaluation succeeded.
    fn eval_grad_f(&mut self, x: &Vec<Number>, grad_f: &mut Vec<Number>) -> (ok: bool)
        ensures
            final(grad_f)@.len() == old(grad_f)@.len(),
    ;

    /// Evaluates the constraint functions at `x`, filling `g` (one slot per
    /// constraint) in place. Returns whether the evaluation succeeded.
    fn eval_g(&mut self, x: &Vec<Number>, g: &mut Vec<Number>) -> (ok: bool)
        ensures
            final(g)@.len() == old(g)@.len(),
    ;

    /// Fills the row and column indices of the non-zero elements of the
    /// constraint Jacobian, in zero-based coordinates of the `m` by `n`
    /// constraint matrix. Consulted exactly once per optimization run,
    /// before any Jacobian value evaluation; the buffer lengths equal the
    /// declared non-zero count.
    fn get_jacobian_sparsity(&mut self, n: i32, m: i32, i_row: &mut Vec<i32>, j_col: &mut Vec<i32>)
        requires
            n >= 0,
            m >= 0,
            old(i_row)@.len() <= (m as int) * (n as int),
            old(j_col)@.len() <= (m as int) * (n as int),
        ensures
            final(i_row)@.len() == old(i_row)@.len(),
            final(j_col)@.len() == old(j_col)@.len(),
            forall|k: int| #![trigger final(i_row)@[k]]
                0 <= k < final(i_row)@.len() ==> 0 <= final(i_row)@[k] < m,
            forall|k: int| #![trigger final(j_col)@[k]]
                0 <= k < final(j_col)@.len() ==> 0 <= final(j_col)@[k] < n,
    ;

    /// Evaluates the non-zero values of the constraint Jacobian at `x`, in
    /// the order declared by the sparsity pattern. Returns whether the
    /// evaluation succeeded.
    fn eval_jac_g(&mut self, x: &Vec<Number>, m: i32, values: &mut Vec<Number>) -> (ok: bool)
        ensures
            final(values)@.len() == old(values)@.len(),
    ;

    /// Fills the row and column indices of the non-zero elements of the
    /// Hessian of the Lagrangian, in zero-based coordinates of the `n` by
    /// `n` matrix. Only the lower triangle is stored: every emitted pair
    /// satisfies `row >= col`. Consulted exactly once per optimization run,
    /// before any Hessian value evaluation; the buffer lengths equal the
    /// declared non-zero count.
    fn get_hessian_sparsity(&mut self, n: i32, m: i32, i_row: &mut Vec<i32>, j_col: &mut Vec<i32>)
        requires
            n >= 0,
            2 * old(i_row)@.len() <= (n as int) * (n as int + 1),
            2 * old(j_col)@.len() <= (n as int) * (n as int + 1),
        ensures
            final(i_row)@.len() == old(i_row)@.len(),
            final(j_col)@.len() == old(j_col)@.len(),
            forall|k: int| #![trigger final(i_row)@[k]] #![trigger final(j_col)@[k]]
                0 <= k < final(i_row)@.len() && k < final(j_col)@.len() ==> 0 <= final(j_col)@[k]
                    <= final(i_row)@[k] < n,
    ;

    /// Evaluates the non-zero values of the Hessian of the Lagrangian at
    /// `x`, weighting the objective part by `obj_factor` and each constraint
    /// part by its multiplier, in the order declared by the sparsity
    /// pattern. Returns whether the evaluation succeeded.
    fn eval_h(
        &mut self,
        x: &Vec<Number>,
        obj_factor: Number,
        lambda: &Vec<Number>,
        m: i32,
        values: &mut Vec<Number>,
    ) -> (ok: bool)
        ensures
            final(values)@.len() == old(values)@.len(),
    ;
}

} // verus!
