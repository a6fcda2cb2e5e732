//! The callback marshaling layer: one solve session's state, reached by the
//! solver engine on every callback it makes during a blocking solve.
//!
//! A [`UserData`] pairs the running problem instance with its accumulating
//! results for the duration of exactly one `optimize_tnlp` call; it is the
//! safe counterpart of the opaque context pointer that the native protocol
//! hands back to every callback. Each callback method validates the buffers
//! it was given against the declared dimensions, bumps the matching
//! evaluation counter (before forwarding, so counters reflect attempted
//! evaluations), and forwards to the problem contract.
//!
//! Every invocation is also recorded in a ghost history, and the session
//! invariant ties the concrete counters and protocol flags to that history.
//! Each forwarded problem call is recorded too, with its arguments and its
//! reply, so the callback contracts state that what came back is what was
//! handed on. [`sparsity_protocol_ok`] states the engine's sparsity-query
//! discipline — each pattern queried exactly once, before any value
//! evaluation of the same matrix — and
//! [`UserData::sparsity_protocol_respected`] decides it.

use vstd::prelude::*;

use crate::numeric::Number;
use crate::numeric::repeated;
use crate::results::EvalKind;
use crate::results::OptimizationResult;
use crate::results::PerformanceResults;
use crate::results::bump;
use crate::results::capped;
use crate::results::capped_kind_count;
use crate::results::hessian_trampoline_count;
use crate::results::jacobian_trampoline_count;
use crate::results::counters_for;
use crate::results::kind_count;
use crate::results::lemma_counters_count_kinds;
use crate::tnlp::ProblemSize;
use crate::tnlp::Tnlp;

verus! {

/// A request made through the constraint-Jacobian callback. The native
/// protocol distinguishes the two by whether the variable buffer pointer is
/// null; here the distinction is an explicit variant.
#[derive(Clone, Debug, PartialEq, Eq)]
pub enum JacobianRequest {
    /// Report the sparsity pattern; made before any value evaluation.
    SparsityQuery,
    /// Evaluate the non-zero values at the given point.
    ValueEvaluation { x: Vec<Number> },
}

/// A request made through the Lagrangian-Hessian callback.
#[derive(Clone, Debug, PartialEq, Eq)]
pub enum HessianRequest {
    /// Report the sparsity pattern; made before any value evaluation.
    SparsityQuery,
    /// Evaluate the non-zero values at the given point, with the objective
    /// weight and constraint multipliers supplied by the engine.
    ValueEvaluation { x: Vec<Number>, obj_factor: Number, lambda: Vec<Number> },
}

/// The reply to a matrix callback request.
#[derive(Clone, Debug, PartialEq, Eq)]
pub enum MatrixReply {
    /// The coordinate position of each non-zero entry, in declaration order.
    Sparsity { i_row: Vec<i32>, j_col: Vec<i32> },
    /// The non-zero values in declaration order, and the problem contract's
    /// success indicator.
    Values { values: Vec<Number>, ok: bool },
}

/// Each value evaluation of a matrix comes after its sparsity pattern was
/// queried at least once.
pub open spec fn patterns_precede_values(
    history: Seq<EvalKind>,
    pattern: EvalKind,
    values: EvalKind,
) -> bool
    decreases history.len(),
{
    if history.len() == 0 {
        true
    } else {
        patterns_precede_values(history.drop_last(), pattern, values) && (history.last() == values
            ==> kind_count(history.drop_last(), pattern) > 0)
    }
}

/// One forwarded call to the problem contract: the arguments the session
/// handed on, and what came back. The session appends a record exactly when
/// it forwards, so a callback's contract can say that its reply is the
/// forwarded call's.
pub enum ProblemCall {
    /// `eval_f` was called at `x` and wrote `obj_value`.
    EvalF { x: Seq<Number>, obj_value: Number, ok: bool },
    /// `eval_grad_f` was called at `x` and filled `grad_f`.
    EvalGradF { x: Seq<Number>, grad_f: Seq<Number>, ok: bool },
    /// `eval_g` was called at `x` and filled `g`.
    EvalG { x: Seq<Number>, g: Seq<Number>, ok: bool },
    /// `get_jacobian_sparsity` was called and filled the pattern buffers.
    JacobianSparsity { i_row: Seq<i32>, j_col: Seq<i32> },
    /// `eval_jac_g` was called at `x` and filled `values`.
    JacobianValues { x: Seq<Number>, values: Seq<Number>, ok: bool },
    /// `get_hessian_sparsity` was called and filled the pattern buffers.
    HessianSparsity { i_row: Seq<i32>, j_col: Seq<i32> },
    /// `eval_h` was called at `x` with the engine's weight and multipliers
    /// and filled `values`.
    HessianValues {
        x: Seq<Number>,
        obj_factor: Number,
        lambda: Seq<Number>,
        values: Seq<Number>,
        ok: bool,
    },
}

/// The part of the sparsity-query discipline that holds of every solver run,
/// aborted ones included: neither pattern is queried more than once, and no
/// value evaluation of a matrix comes before its pattern query.
pub open spec fn sparsity_discipline_ok(history: Seq<EvalKind>) -> bool {
    &&& kind_count(history, EvalKind::JacobianSparsity) <= 1
    &&& kind_count(history, EvalKind::HessianSparsity) <= 1
    &&& patterns_precede_values(history, EvalKind::JacobianSparsity, EvalKind::JacobianValues)
    &&& patterns_precede_values(history, EvalKind::HessianSparsity, EvalKind::HessianValues)
}

/// The full sparsity-query discipline the solver engine owes a completed
/// solve: each of the two sparsity patterns is queried exactly once, and
/// strictly before any value evaluation of the same matrix.
pub open spec fn sparsity_protocol_ok(history: Seq<EvalKind>) -> bool {
    &&& kind_count(history, EvalKind::JacobianSparsity) == 1
    &&& kind_count(history, EvalKind::HessianSparsity) == 1
    &&& patterns_precede_values(history, EvalKind::JacobianSparsity, EvalKind::JacobianValues)
    &&& patterns_precede_values(history, EvalKind::HessianSparsity, EvalKind::HessianValues)
}

/// A history has a positive count of `kind` exactly when some invocation in
/// it is of that kind.
pub proof fn lemma_kind_count_positive(history: Seq<EvalKind>, kind: EvalKind)
    ensures
        kind_count(history, kind) > 0 <==> exists|j: int|
            0 <= j < history.len() && history[j] == kind,
    decreases history.len(),
{
    if history.len() > 0 {
        lemma_kind_count_positive(history.drop_last(), kind);
        if history.last() == kind {
            assert(history[history.len() - 1] == kind);
        } else if exists|j: int| 0 <= j < history.len() && history[j] == kind {
            let j = choose|j: int| 0 <= j < history.len() && history[j] == kind;
            assert(history.drop_last()[j] == kind);
        }
    }
}

/// Every invocation of the value kind comes strictly after at least one
/// invocation of the pattern kind: the direct, position-wise reading of the
/// sparsity-query discipline. By [`lemma_kind_count_positive`], the positive
/// count of the prefix before position `i` is the same as an invocation of
/// the pattern kind at some position before `i`.
pub open spec fn every_value_preceded(
    history: Seq<EvalKind>,
    pattern: EvalKind,
    values: EvalKind,
) -> bool {
    forall|i: int| #![trigger history.index(i)]
        0 <= i < history.len() && history[i] == values ==> kind_count(history.take(i), pattern) > 0
}

/// `patterns_precede_values` says exactly that every invocation of the value
/// kind is preceded, strictly earlier in the history, by one of the pattern
/// kind.
pub proof fn lemma_patterns_precede_values_iff(
    history: Seq<EvalKind>,
    pattern: EvalKind,
    values: EvalKind,
)
    ensures
        patterns_precede_values(history, pattern, values) <==> every_value_preceded(
            history,
            pattern,
            values,
        ),
    decreases history.len(),
{
    if history.len() > 0 {
        let prefix = history.drop_last();
        let end = history.len() - 1;
        lemma_patterns_precede_values_iff(prefix, pattern, values);
        if patterns_precede_values(history, pattern, values) {
            assert forall|i: int| #![trigger history.index(i)]
                0 <= i < history.len() && history[i] == values implies kind_count(
                history.take(i),
                pattern,
            ) > 0 by {
                if i < end {
                    assert(prefix[i] == values);
                    assert(history.take(i) =~= prefix.take(i));
                } else {
                    assert(history.take(i) =~= prefix);
                }
            }
        }
        if every_value_preceded(history, pattern, values) {
            assert forall|i: int| #![trigger prefix.index(i)]
                0 <= i < prefix.len() && prefix[i] == values implies kind_count(
                prefix.take(i),
                pattern,
            ) > 0 by {
                assert(history[i] == values);
                assert(history.take(i) =~= prefix.take(i));
            }
            assert(every_value_preceded(prefix, pattern, values));
            if history.last() == values {
                assert(history[end] == values);
                assert(history.take(end) =~= prefix);
                assert(kind_count(prefix, pattern) > 0);
            }
        }
    }
}

/// How one appended invocation changes the derived views of a history: the
/// folded counters record it, each kind count grows by one exactly for its
/// own kind, and the pattern-before-values discipline gains one condition.
pub proof fn lemma_history_push(history: Seq<EvalKind>, kind: EvalKind)
    ensures
        counters_for(history.push(kind)) == counters_for(history).spec_record(kind),
        forall|k: EvalKind| #[trigger]
            kind_count(history.push(kind), k) == kind_count(history, k) + (if k == kind {
                1nat
            } else {
                0nat
            }),
        forall|p: EvalKind, v: EvalKind| #[trigger]
            patterns_precede_values(history.push(kind), p, v) == (patterns_precede_values(
                history,
                p,
                v,
            ) && (kind == v ==> kind_count(history, p) > 0)),
{
    assert(history.push(kind).drop_last() =~= history);
    assert(history.push(kind).last() == kind);
}

/// The transient aggregate pairing a running problem instance with its
/// accumulating results for the duration of one `optimize_tnlp` call: the
/// safe counterpart of the opaque user-data pointer of the native protocol.
pub struct UserData<P: Tnlp> {
    problem: P,
    results: OptimizationResult,
    size: ProblemSize,
    jacobian_pattern_queries: u32,
    hessian_pattern_queries: u32,
    jacobian_values_before_pattern: bool,
    hessian_values_before_pattern: bool,
    history: Ghost<Seq<EvalKind>>,
    forwards: Ghost<Seq<ProblemCall>>,
}

impl<P: Tnlp> UserData<P> {
    /// The problem dimensions recorded when the session was created; every
    /// callback buffer length derives from them.
    pub closed spec fn spec_size(&self) -> ProblemSize {
        self.size
    }

    /// The accumulating result, counters included.
    pub closed spec fn spec_results(&self) -> OptimizationResult {
        self.results
    }

    /// The running problem instance.
    pub closed spec fn spec_problem(&self) -> P {
        self.problem
    }

    /// Every callback invocation made so far, in order.
    pub closed spec fn callback_history(&self) -> Seq<EvalKind> {
        self.history@
    }

    /// Every call forwarded to the problem contract so far, in order, with
    /// its arguments and reply.
    pub closed spec fn forwarded_calls(&self) -> Seq<ProblemCall> {
        self.forwards@
    }

    /// The session invariant: the recorded dimensions are counts, and the
    /// counters and protocol flags are exactly the views of the callback
    /// history that `counters_for`, `capped_kind_count` and
    /// `patterns_precede_values` define.
    pub closed spec fn inv(&self) -> bool {
        &&& self.size.wf()
        &&& self.results.performance == counters_for(self.history@)
        &&& self.jacobian_pattern_queries == capped_kind_count(
            self.history@,
            EvalKind::JacobianSparsity,
        )
        &&& self.hessian_pattern_queries == capped_kind_count(
            self.history@,
            EvalKind::HessianSparsity,
        )
        &&& self.jacobian_values_before_pattern == !patterns_precede_values(
            self.history@,
            EvalKind::JacobianSparsity,
            EvalKind::JacobianValues,
        )
        &&& self.hessian_values_before_pattern == !patterns_precede_values(
            self.history@,
            EvalKind::HessianSparsity,
            EvalKind::HessianValues,
        )
    }

    /// Pairs `problem` with a zero-initialized result for one solve.
    pub fn new(problem: P, size: ProblemSize) -> (user_data: UserData<P>)
        requires
            size.wf(),
        ensures
            user_data.inv(),
            user_data.spec_size() == size,
            user_data.spec_problem() == problem,
            user_data.callback_history() == Seq::<EvalKind>::empty(),
            user_data.forwarded_calls() == Seq::<ProblemCall>::empty(),
            user_data.spec_results().performance == PerformanceResults::spec_zeroed(),
    {
        UserData {
            problem,
            results: OptimizationResult::default(),
            size,
            jacobian_pattern_queries: 0,
            hessian_pattern_queries: 0,
            jacobian_values_before_pattern: false,
            hessian_values_before_pattern: false,
            history: Ghost(Seq::empty()),
            forwards: Ghost(Seq::empty()),
        }
    }

    /// What every callback leaves unchanged and how it extends the history.
    pub open spec fn callback_step(&self, before: Self, kind: EvalKind) -> bool {
        &&& self.inv()
        &&& self.spec_size() == before.spec_size()
        &&& self.callback_history() == before.callback_history().push(kind)
        &&& self.spec_results() == (OptimizationResult {
            performance: before.spec_results().performance.spec_record(kind),
            ..before.spec_results()
        })
    }

    /// The objective evaluation trampoline: counts the attempt, validates
    /// the buffer length against the declared variable count and forwards to
    /// the problem contract. Returns the objective value and the contract's
    /// success indicator; a buffer of the wrong length fails the evaluation.
    pub fn objective_callback(&mut self, x: &Vec<Number>) -> (reply: (Number, bool))
        requires
            old(self).inv(),
        ensures
            final(self).callback_step(*old(self), EvalKind::Objective),
            x@.len() == old(self).spec_size().n ==> final(self).forwarded_calls() == old(
                self,
            ).forwarded_calls().push(
                (ProblemCall::EvalF { x: x@, obj_value: reply.0, ok: reply.1 }),
            ),
            x@.len() != old(self).spec_size().n ==> !reply.1 && final(self).forwarded_calls()
                == old(self).forwarded_calls(),
    {
        proof {
            lemma_history_push(self.history@, EvalKind::Objective);
        }
        self.history = Ghost(self.history@.push(EvalKind::Objective));
        self.results.performance.record(EvalKind::Objective);
        let mut value = Number::zero();
        if x.len() == self.size.n as usize {
            let ok = self.problem.eval_f(x, &mut value);
            self.forwards = Ghost(
                self.forwards@.push(ProblemCall::EvalF { x: x@, obj_value: value, ok }),
            );
            (value, ok)
        } else {
            (value, false)
        }
    }

    /// The objective gradient trampoline. The returned buffer always has one
    /// slot per declared variable.
    pub fn gradient_callback(&mut self, x: &Vec<Number>) -> (reply: (Vec<Number>, bool))
        requires
            old(self).inv(),
        ensures
            final(self).callback_step(*old(self), EvalKind::ObjectiveGradient),
            reply.0@.len() == old(self).spec_size().n,
            x@.len() == old(self).spec_size().n ==> final(self).forwarded_calls() == old(
                self,
            ).forwarded_calls().push(
                (ProblemCall::EvalGradF { x: x@, grad_f: reply.0@, ok: reply.1 }),
            ),
            x@.len() != old(self).spec_size().n ==> !reply.1 && final(self).forwarded_calls()
                == old(self).forwarded_calls(),
    {
        proof {
            lemma_history_push(self.history@, EvalKind::ObjectiveGradient);
        }
        self.history = Ghost(self.history@.push(EvalKind::ObjectiveGradient));
        self.results.performance.record(EvalKind::ObjectiveGradient);
        let n = self.size.n as usize;
        let mut grad_f = repeated(n, Number::zero());
        if x.len() == n {
            let ok = self.problem.eval_grad_f(x, &mut grad_f);
            self.forwards = Ghost(
                self.forwards@.push(ProblemCall::EvalGradF { x: x@, grad_f: grad_f@, ok }),
            );
            (grad_f, ok)
        } else {
            (grad_f, false)
        }
    }

    /// The constraint evaluation trampoline. The returned buffer always has
    /// one slot per declared constraint.
    pub fn constraints_callback(&mut self, x: &Vec<Number>) -> (reply: (Vec<Number>, bool))
        requires
            old(self).inv(),
        ensures
            final(self).callback_step(*old(self), EvalKind::Constraints),
            reply.0@.len() == old(self).spec_size().m,
            x@.len() == old(self).spec_size().n ==> final(self).forwarded_calls() == old(
                self,
            ).forwarded_calls().push((ProblemCall::EvalG { x: x@, g: reply.0@, ok: reply.1 })),
            x@.len() != old(self).spec_size().n ==> !reply.1 && final(self).forwarded_calls()
                == old(self).forwarded_calls(),
    {
        proof {
            lemma_history_push(self.history@, EvalKind::Constraints);
        }
        self.history = Ghost(self.history@.push(EvalKind::Constraints));
        self.results.performance.record(EvalKind::Constraints);
        let m = self.size.m as usize;
        let mut g = repeated(m, Number::zero());
        if x.len() == self.size.n as usize {
            let ok = self.problem.eval_g(x, &mut g);
            self.forwards = Ghost(
                self.forwards@.push(ProblemCall::EvalG { x: x@, g: g@, ok }),
            );
            (g, ok)
        } else {
            (g, false)
        }
    }

    /// The constraint-Jacobian trampoline. A sparsity query returns the
    /// pattern buffers, one slot per declared non-zero, each pair an
    /// in-range zero-based coordinate of the constraint matrix; a value
    /// evaluation counts the attempt and returns the values, one slot per
    /// declared non-zero.
    pub fn jacobian_callback(&mut self, request: JacobianRequest) -> (reply: MatrixReply)
        requires
            old(self).inv(),
        ensures
            request is SparsityQuery ==> final(self).callback_step(
                *old(self),
                EvalKind::JacobianSparsity,
            ),
            request is ValueEvaluation ==> final(self).callback_step(
                *old(self),
                EvalKind::JacobianValues,
            ),
            request is SparsityQuery ==> (reply matches MatrixReply::Sparsity { i_row, j_col }
                && i_row@.len() == old(self).spec_size().nnz_jac && j_col@.len() == old(
                self,
            ).spec_size().nnz_jac && (forall|k: int| #![trigger i_row@[k]]
                0 <= k < i_row@.len() ==> 0 <= i_row@[k] < old(self).spec_size().m) && (
            forall|k: int| #![trigger j_col@[k]]
                0 <= k < j_col@.len() ==> 0 <= j_col@[k] < old(self).spec_size().n) && final(self).forwarded_calls() == old(self).forwarded_calls().push(
                (ProblemCall::JacobianSparsity { i_row: i_row@, j_col: j_col@ }),
            )),
            request matches JacobianRequest::ValueEvaluation { x } ==> (reply
                matches MatrixReply::Values { values, ok } && values@.len() == old(
                self,
            ).spec_size().nnz_jac && (x@.len() == old(self).spec_size().n ==> final(self).forwarded_calls() == old(self).forwarded_calls().push(
                (ProblemCall::JacobianValues { x: x@, values: values@, ok }),
            )) && (x@.len() != old(self).spec_size().n ==> !ok && final(self).forwarded_calls()
                == old(self).forwarded_calls())),
    {
        let nnz = self.size.nnz_jac as usize;
        match request {
            JacobianRequest::SparsityQuery => {
                proof {
                    lemma_history_push(self.history@, EvalKind::JacobianSparsity);
                }
                self.history = Ghost(self.history@.push(EvalKind::JacobianSparsity));
                self.results.performance.record(EvalKind::JacobianSparsity);
                self.jacobian_pattern_queries = bump(self.jacobian_pattern_queries);
                let mut i_row = repeated(nnz, 0i32);
                let mut j_col = repeated(nnz, 0i32);
                self.problem.get_jacobian_sparsity(self.size.n, self.size.m, &mut i_row, &mut j_col);
                self.forwards = Ghost(
                    self.forwards@.push(
                        ProblemCall::JacobianSparsity { i_row: i_row@, j_col: j_col@ },
                    ),
                );
                MatrixReply::Sparsity { i_row, j_col }
            },
            JacobianRequest::ValueEvaluation { x } => {
                proof {
                    lemma_history_push(self.history@, EvalKind::JacobianValues);
                }
                if self.jacobian_pattern_queries == 0 {
                    self.jacobian_values_before_pattern = true;
                }
                self.history = Ghost(self.history@.push(EvalKind::JacobianValues));
                self.results.performance.record(EvalKind::JacobianValues);
                let mut values = repeated(nnz, Number::zero());
                if x.len() == self.size.n as usize {
                    let ok = self.problem.eval_jac_g(&x, self.size.m, &mut values);
                    self.forwards = Ghost(
                        self.forwards@.push(
                            ProblemCall::JacobianValues { x: x@, values: values@, ok },
                        ),
                    );
                    MatrixReply::Values { values, ok }
                } else {
                    MatrixReply::Values { values, ok: false }
                }
            },
        }
    }

    /// The Lagrangian-Hessian trampoline. A sparsity query returns the
    /// pattern buffers, one slot per declared non-zero, with every pair an
    /// in-range zero-based coordinate in the lower triangle (`row >= col`);
    /// a value evaluation counts the attempt and returns the values.
    pub fn hessian_callback(&mut self, request: HessianRequest) -> (reply: MatrixReply)
        requires
            old(self).inv(),
        ensures
            request is SparsityQuery ==> final(self).callback_step(
                *old(self),
                EvalKind::HessianSparsity,
            ),
            request is ValueEvaluation ==> final(self).callback_step(
                *old(self),
                EvalKind::HessianValues,
            ),
            request is SparsityQuery ==> (reply matches MatrixReply::Sparsity { i_row, j_col }
                && i_row@.len() == old(self).spec_size().nnz_hess && j_col@.len() == old(
                self,
            ).spec_size().nnz_hess && (forall|k: int| #![trigger i_row@[k]] #![trigger j_col@[k]]
                0 <= k < i_row@.len() ==> 0 <= j_col@[k] <= i_row@[k] < old(
                    self,
                ).spec_size().n) && final(self).forwarded_calls() == old(
                self,
            ).forwarded_calls().push(
                (ProblemCall::HessianSparsity { i_row: i_row@, j_col: j_col@ }),
            )),
            request matches HessianRequest::ValueEvaluation { x, obj_factor, lambda } ==> (reply
                matches MatrixReply::Values { values, ok } && values@.len() == old(
                self,
            ).spec_size().nnz_hess && (x@.len() == old(self).spec_size().n && lambda@.len() == old(
                self,
            ).spec_size().m ==> final(self).forwarded_calls() == old(
                self,
            ).forwarded_calls().push(
                (ProblemCall::HessianValues {
                    x: x@,
                    obj_factor,
                    lambda: lambda@,
                    values: values@,
                    ok,
                }),
            )) && (x@.len() != old(self).spec_size().n || lambda@.len() != old(
                self,
            ).spec_size().m ==> !ok && final(self).forwarded_calls() == old(
                self,
            ).forwarded_calls())),
    {
        let nnz = self.size.nnz_hess as usize;
        match request {
            HessianRequest::SparsityQuery => {
                proof {
                    lemma_history_push(self.history@, EvalKind::HessianSparsity);
                }
                self.history = Ghost(self.history@.push(EvalKind::HessianSparsity));
                self.results.performance.record(EvalKind::HessianSparsity);
                self.hessian_pattern_queries = bump(self.hessian_pattern_queries);
                let mut i_row = repeated(nnz, 0i32);
                let mut j_col = repeated(nnz, 0i32);
                self.problem.get_hessian_sparsity(self.size.n, self.size.m, &mut i_row, &mut j_col);
                self.forwards = Ghost(
                    self.forwards@.push(
                        ProblemCall::HessianSparsity { i_row: i_row@, j_col: j_col@ },
                    ),
                );
                MatrixReply::Sparsity { i_row, j_col }
            },
            HessianRequest::ValueEvaluation { x, obj_factor, lambda } => {
                proof {
                    lemma_history_push(self.history@, EvalKind::HessianValues);
                }
                if self.hessian_pattern_queries == 0 {
                    self.hessian_values_before_pattern = true;
                }
                self.history = Ghost(self.history@.push(EvalKind::HessianValues));
                self.results.performance.record(EvalKind::HessianValues);
                let mut values = repeated(nnz, Number::zero());
                if x.len() == self.size.n as usize && lambda.len() == self.size.m as usize {
                    let ok = self.problem.eval_h(
                        &x,
                        obj_factor,
                        &lambda,
                        self.size.m,
                        &mut values,
                    );
                    self.forwards = Ghost(
                        self.forwards@.push(
                            ProblemCall::HessianValues {
                                x: x@,
                                obj_factor,
                                lambda: lambda@,
                                values: values@,
                                ok,
                            },
                        ),
                    );
                    MatrixReply::Values { values, ok }
                } else {
                    MatrixReply::Values { values, ok: false }
                }
            },
        }
    }

    /// The evaluation counters accumulated so far.
    pub fn performance(&self) -> (r: &PerformanceResults)
        ensures
            *r == self.spec_results().performance,
    {
        &self.results.performance
    }

    /// Whether the callbacks made so far respect the sparsity-query
    /// discipline: each pattern queried exactly once, and before any value
    /// evaluation of the same matrix.
    pub fn sparsity_protocol_respected(&self) -> (r: bool)
        requires
            self.inv(),
        ensures
            r == sparsity_protocol_ok(self.callback_history()),
    {
        self.jacobian_pattern_queries == 1 && self.hessian_pattern_queries == 1
            && !self.jacobian_values_before_pattern && !self.hessian_values_before_pattern
    }

    /// Finalizes the run: stores the engine's status code and the buffers it
    /// mutated into the result, next to the counters accumulated during the
    /// solve, and releases the problem instance.
    pub fn into_result(
        self,
        status: i32,
        x: Vec<Number>,
        constraints: Vec<Number>,
        objective: Number,
        lambda: Vec<Number>,
        z_l: Vec<Number>,
        z_u: Vec<Number>,
    ) -> (r: OptimizationResult)
        ensures
            r.status == status,
            r.performance == self.spec_results().performance,
            r.solution.x == x,
            r.solution.constraints == constraints,
            r.solution.objective == objective,
            r.solution.lambda == lambda,
            r.solution.z_l == z_l,
            r.solution.z_u == z_u,
    {
        let mut results = self.results;
        results.status = status;
        results.solution.x = x;
        results.solution.constraints = constraints;
        results.solution.objective = objective;
        results.solution.lambda = lambda;
        results.solution.z_l = z_l;
        results.solution.z_u = z_u;
        results
    }
}

/// The evaluation counters of a session equal the number of invocations of
/// each trampoline in its history — sparsity queries and value evaluations
/// both counting for the Jacobian and Hessian — saturating only beyond the
/// counter width.
pub proof fn lemma_counters_match_history<P: Tnlp>(user_data: UserData<P>)
    requires
        user_data.inv(),
    ensures
        user_data.spec_results().performance.number_of_objective_evaluations == capped_kind_count(
            user_data.callback_history(),
            EvalKind::Objective,
        ),
        user_data.spec_results().performance.number_of_objective_gradient_evaluations
            == capped_kind_count(user_data.callback_history(), EvalKind::ObjectiveGradient),
        user_data.spec_results().performance.number_of_constraint_evaluations == capped_kind_count(
            user_data.callback_history(),
            EvalKind::Constraints,
        ),
        user_data.spec_results().performance.number_of_jacobian_evaluations == capped(
            jacobian_trampoline_count(user_data.callback_history()),
        ),
        user_data.spec_results().performance.number_of_hessian_evaluations == capped(
            hessian_trampoline_count(user_data.callback_history()),
        ),
{
    lemma_counters_count_kinds(user_data.callback_history());
}

} // verus!
