//! Result data for one optimization run, and the evaluation-counter model.
//!
//! The solver engine invokes the evaluation callbacks of a session on its own
//! schedule. Each invocation is recorded twice: abstractly, as an
//! [`EvalKind`] appended to the session's ghost history, and concretely, by
//! bumping the matching counter of [`PerformanceResults`]. The spec functions
//! here define both sides — [`kind_count`] counts invocations of one kind in
//! a history, and [`counters_for`] folds a history into the counter values —
//! and [`lemma_counters_count_kinds`] proves that the two always agree.

use vstd::prelude::*;

use crate::numeric::Number;

verus! {

/// The kind of one callback invocation made by the solver engine.
#[derive(Clone, Copy, Debug, PartialEq, Eq, Structural)]
pub enum EvalKind {
    /// Objective value evaluation.
    Objective,
    /// Objective gradient evaluation.
    ObjectiveGradient,
    /// Constraint values evaluation.
    Constraints,
    /// Jacobian sparsity-pattern query (null data buffer in the native protocol).
    JacobianSparsity,
    /// Jacobian values evaluation.
    JacobianValues,
    /// Hessian sparsity-pattern query (null data buffer in the native protocol).
    HessianSparsity,
    /// Hessian values evaluation.
    HessianValues,
}

/// Contains results related to the performance of the optimization.
#[derive(Clone, Debug, PartialEq, Eq, Structural)]
pub struct PerformanceResults {
    /// The number of evaluations of the objective function.
    pub number_of_objective_evaluations: u32,
    /// The number of evaluations of the objective gradients.
    pub number_of_objective_gradient_evaluations: u32,
    /// The number of evaluations of the constraint functions.
    pub number_of_constraint_evaluations: u32,
    /// The number of evaluations of the Jacobian of the constraints.
    pub number_of_jacobian_evaluations: u32,
    /// The number of evaluations of the Hessian of the Lagrangian.
    pub number_of_hessian_evaluations: u32,
}

impl PerformanceResults {
    /// All five counters at zero: the state before any callback has run.
    pub open spec fn spec_zeroed() -> PerformanceResults {
        PerformanceResults {
            number_of_objective_evaluations: 0,
            number_of_objective_gradient_evaluations: 0,
            number_of_constraint_evaluations: 0,
            number_of_jacobian_evaluations: 0,
            number_of_hessian_evaluations: 0,
        }
    }

    /// The counters after one more invocation of kind `kind`.
    ///
    /// Each counter counts every invocation of its trampoline: the Jacobian
    /// and Hessian trampolines serve both the sparsity query and the value
    /// evaluation, so both kinds bump the matching counter. A counter that
    /// has reached `u32::MAX` saturates.
    pub open spec fn spec_record(self, kind: EvalKind) -> PerformanceResults {
        match kind {
            EvalKind::Objective => PerformanceResults {
                number_of_objective_evaluations: saturating_bump(
                    self.number_of_objective_evaluations,
                ),
                ..self
            },
            EvalKind::ObjectiveGradient => PerformanceResults {
                number_of_objective_gradient_evaluations: saturating_bump(
                    self.number_of_objective_gradient_evaluations,
                ),
                ..self
            },
            EvalKind::Constraints => PerformanceResults {
                number_of_constraint_evaluations: saturating_bump(
                    self.number_of_constraint_evaluations,
                ),
                ..self
            },
            EvalKind::JacobianValues => PerformanceResults {
                number_of_jacobian_evaluations: saturating_bump(
                    self.number_of_jacobian_evaluations,
                ),
                ..self
            },
            EvalKind::HessianValues => PerformanceResults {
                number_of_hessian_evaluations: saturating_bump(
                    self.number_of_hessian_evaluations,
                ),
                ..self
            },
            EvalKind::JacobianSparsity => PerformanceResults {
                number_of_jacobian_evaluations: saturating_bump(
                    self.number_of_jacobian_evaluations,
                ),
                ..self
            },
            EvalKind::HessianSparsity => PerformanceResults {
                number_of_hessian_evaluations: saturating_bump(
                    self.number_of_hessian_evaluations,
                ),
                ..self
            },
        }
    }

    /// Bumps the counter matching `kind`, saturating at `u32::MAX`.
    pub fn record(&mut self, kind: EvalKind)
        ensures
            *final(self) == old(self).spec_record(kind),
    {
        match kind {
            EvalKind::Objective => {
                self.number_of_objective_evaluations = bump(
                    self.number_of_objective_evaluations,
                );
            },
            EvalKind::ObjectiveGradient => {
                self.number_of_objective_gradient_evaluations = bump(
                    self.number_of_objective_gradient_evaluations,
                );
            },
            EvalKind::Constraints => {
                self.number_of_constraint_evaluations = bump(
                    self.number_of_constraint_evaluations,
                );
            },
            EvalKind::JacobianValues => {
                self.number_of_jacobian_evaluations = bump(self.number_of_jacobian_evaluations);
            },
            EvalKind::HessianValues => {
                self.number_of_hessian_evaluations = bump(self.number_of_hessian_evaluations);
            },
            EvalKind::JacobianSparsity => {
                self.number_of_jacobian_evaluations = bump(self.number_of_jacobian_evaluations);
            },
            EvalKind::HessianSparsity => {
                self.number_of_hessian_evaluations = bump(self.number_of_hessian_evaluations);
            },
        }
    }
}

impl Default for PerformanceResults {
    /// Returns the all-zero counters.
    fn default() -> (r: PerformanceResults)
        ensures
            r == PerformanceResults::spec_zeroed(),
    {
        PerformanceResults {
            number_of_objective_evaluations: 0,
            number_of_objective_gradient_evaluations: 0,
            number_of_constraint_evaluations: 0,
            number_of_jacobian_evaluations: 0,
            number_of_hessian_evaluations: 0,
        }
    }
}

/// `value + 1`, saturating at `u32::MAX`.
pub open spec fn saturating_bump(value: u32) -> u32 {
    if value < u32::MAX {
        (value + 1) as u32
    } else {
        value
    }
}

pub(crate) fn bump(value: u32) -> (r: u32)
    ensures
        r == saturating_bump(value),
{
    if value < u32::MAX {
        value + 1
    } else {
        value
    }
}

/// How often `kind` occurs in the callback history `history`.
pub open spec fn kind_count(history: Seq<EvalKind>, kind: EvalKind) -> nat
    decreases history.len(),
{
    if history.len() == 0 {
        0
    } else {
        kind_count(history.drop_last(), kind) + if history.last() == kind {
            1nat
        } else {
            0nat
        }
    }
}

/// The counter values reached by recording every invocation in `history`,
/// in order, starting from zero.
pub open spec fn counters_for(history: Seq<EvalKind>) -> PerformanceResults
    decreases history.len(),
{
    if history.len() == 0 {
        PerformanceResults::spec_zeroed()
    } else {
        counters_for(history.drop_last()).spec_record(history.last())
    }
}

/// `count`, capped at `u32::MAX`, the most a counter can show.
pub open spec fn capped(count: nat) -> nat {
    if count <= u32::MAX {
        count
    } else {
        u32::MAX as nat
    }
}

/// `kind_count(history, kind)`, capped at `u32::MAX`.
pub open spec fn capped_kind_count(history: Seq<EvalKind>, kind: EvalKind) -> nat {
    capped(kind_count(history, kind))
}

/// How often the Jacobian trampoline was invoked: it serves both the
/// sparsity query and the value evaluation.
pub open spec fn jacobian_trampoline_count(history: Seq<EvalKind>) -> nat {
    kind_count(history, EvalKind::JacobianSparsity) + kind_count(
        history,
        EvalKind::JacobianValues,
    )
}

/// How often the Hessian trampoline was invoked: it serves both the
/// sparsity query and the value evaluation.
pub open spec fn hessian_trampoline_count(history: Seq<EvalKind>) -> nat {
    kind_count(history, EvalKind::HessianSparsity) + kind_count(
        history,
        EvalKind::HessianValues,
    )
}

/// Each evaluation counter equals the number of invocations of its
/// trampoline — for the Jacobian and Hessian, sparsity queries and value
/// evaluations together — as long as that number fits the counter's width;
/// beyond that the counter saturates.
pub proof fn lemma_counters_count_kinds(history: Seq<EvalKind>)
    ensures
        counters_for(history).number_of_objective_evaluations == capped_kind_count(
            history,
            EvalKind::Objective,
        ),
        counters_for(history).number_of_objective_gradient_evaluations == capped_kind_count(
            history,
            EvalKind::ObjectiveGradient,
        ),
        counters_for(history).number_of_constraint_evaluations == capped_kind_count(
            history,
            EvalKind::Constraints,
        ),
        counters_for(history).number_of_jacobian_evaluations == capped(
            jacobian_trampoline_count(history),
        ),
        counters_for(history).number_of_hessian_evaluations == capped(
            hessian_trampoline_count(history),
        ),
    decreases history.len(),
{
    if history.len() > 0 {
        lemma_counters_count_kinds(history.drop_last());
    }
}

/// Recording one more invocation never decreases any counter: the five
/// evaluation counters grow monotonically over a solve.
pub proof fn lemma_record_is_monotone(counters: PerformanceResults, kind: EvalKind)
    ensures
        counters.spec_record(kind).number_of_objective_evaluations
            >= counters.number_of_objective_evaluations,
        counters.spec_record(kind).number_of_objective_gradient_evaluations
            >= counters.number_of_objective_gradient_evaluations,
        counters.spec_record(kind).number_of_constraint_evaluations
            >= counters.number_of_constraint_evaluations,
        counters.spec_record(kind).number_of_jacobian_evaluations
            >= counters.number_of_jacobian_evaluations,
        counters.spec_record(kind).number_of_hessian_evaluations
            >= counters.number_of_hessian_evaluations,
{
}

/// Contains the numeric solution to the problem.
#[derive(Clone, Debug, PartialEq, Eq)]
pub struct Solution {
    /// The final values of the optimization variables.
    pub x: Vec<Number>,
    /// The final values of the constraint functions.
    pub constraints: Vec<Number>,
    /// The final values of the constraint multipliers.
    pub lambda: Vec<Number>,
    /// The final values of the lower bound multipliers.
    pub z_l: Vec<Number>,
    /// The final values of the upper bound multipliers.
    pub z_u: Vec<Number>,
    /// The final value of the objective function.
    pub objective: Number,
}

impl Default for Solution {
    /// Returns empty buffers and a zero objective.
    fn default() -> (r: Solution)
        ensures
            r.x@ == Seq::<Number>::empty(),
            r.constraints@ == Seq::<Number>::empty(),
            r.lambda@ == Seq::<Number>::empty(),
            r.z_l@ == Seq::<Number>::empty(),
            r.z_u@ == Seq::<Number>::empty(),
            r.objective@ == 0,
    {
        Solution {
            x: Vec::new(),
            constraints: Vec::new(),
            lambda: Vec::new(),
            z_l: Vec::new(),
            z_u: Vec::new(),
            objective: Number::zero(),
        }
    }
}

/// Aggregates everything one `optimize_tnlp` call returns.
#[derive(Clone, Debug, PartialEq, Eq)]
pub struct OptimizationResult {
    /// The numeric solution to the problem.
    pub solution: Solution,
    /// Results relating to the performance of the solve.
    pub performance: PerformanceResults,
    /// The raw status return code from the solver engine, stored verbatim.
    pub status: i32,
}

impl Default for OptimizationResult {
    /// Returns an empty solution, zeroed counters and a zero status code.
    fn default() -> (r: OptimizationResult)
        ensures
            r.performance == PerformanceResults::spec_zeroed(),
            r.status == 0,
            r.solution.x@ == Seq::<Number>::empty(),
            r.solution.constraints@ == Seq::<Number>::empty(),
            r.solution.lambda@ == Seq::<Number>::empty(),
            r.solution.z_l@ == Seq::<Number>::empty(),
            r.solution.z_u@ == Seq::<Number>::empty(),
            r.solution.objective@ == 0,
    {
        OptimizationResult {
            solution: Solution::default(),
            performance: PerformanceResults::default(),
            status: 0,
        }
    }
}

} // verus!
