//! The orchestrator: configuration storage and the `optimize_tnlp` call that
//! takes a problem contract through one solve on a solver engine.
//!
//! The engine is reached only through an [`EngineDriver`], so
//! `optimize_tnlp`'s contract can state its whole exchange with the engine
//! as a transcript: exactly one create call carrying the declared dimensions
//! and the filled bounds, then the configured options (one call per name,
//! see [`lemma_option_calls_content`]), then — when nothing aborted — exactly
//! one solve whose outputs become the returned solution, and a free on
//! every path that created a handle.

use vstd::prelude::*;

use crate::interface::EngineCall;
use crate::interface::EngineDriver;
use crate::interface::SolverInterface;
use crate::interface::all_option_calls;
use crate::interface::is_create_for;
use crate::interface::is_option_call;
use crate::numeric::Number;
use crate::numeric::repeated;
use crate::options::OptionStore;
use crate::options::c_compatible_text;
use crate::options::c_string_compatible;
use crate::options::lemma_pairs_to_map_dom;
use crate::options::lemma_pairs_to_map_value;
use crate::results::OptimizationResult;
use crate::results::counters_for;
use crate::results::lemma_counters_count_kinds;
use crate::session::UserData;
use crate::session::lemma_counters_match_history;
use crate::session::sparsity_discipline_ok;
use crate::tnlp::ProblemSize;
use crate::tnlp::Tnlp;
use crate::tnlp::multipliers_or_default;

verus! {

/// Why an `optimize_tnlp` call was aborted before the solve.
#[derive(Clone, Copy, Debug, PartialEq, Eq, Structural)]
pub enum OptimizeError {
    /// A declared problem dimension is not representable as a count in the
    /// native integer width.
    DimensionOverflow,
    /// An option name or value cannot be transported as a null-terminated
    /// string, because its encoding contains a zero byte.
    InvalidOptionString,
}

/// The engine calls that push the integer options stored in `entries`, one
/// per entry, in store order.
pub open spec fn integer_calls_of(entries: Seq<(String, i32)>) -> Seq<EngineCall> {
    Seq::new(
        entries.len(),
        |j: int| EngineCall::AddIntegerOption { name: entries[j].0@, value: entries[j].1 },
    )
}

/// The engine calls that push the numeric options stored in `entries`, one
/// per entry, in store order.
pub open spec fn numeric_calls_of(entries: Seq<(String, Number)>) -> Seq<EngineCall> {
    Seq::new(
        entries.len(),
        |j: int| EngineCall::AddNumericOption { name: entries[j].0@, value: entries[j].1 },
    )
}

/// The engine calls that push the string options stored in `entries`, one
/// per entry, in store order.
pub open spec fn string_calls_of(entries: Seq<(String, String)>) -> Seq<EngineCall> {
    Seq::new(
        entries.len(),
        |j: int| EngineCall::AddStringOption { name: entries[j].0@, value: entries[j].1@ },
    )
}

/// `call` is the one solve of a run that returned `result` for a problem of
/// dimensions `size`: the initial buffers handed in had the declared
/// lengths; the solution fields, status code and counters of `result` are
/// exactly the final buffer contents, status code and folded callback
/// history the engine left behind; and the callbacks respected the
/// sparsity-query discipline.
pub open spec fn solve_call_matches(
    call: EngineCall,
    result: OptimizationResult,
    size: ProblemSize,
) -> bool {
    call matches EngineCall::Solve {
        x_in,
        lambda_in,
        z_l_in,
        z_u_in,
        x_out,
        constraints_out,
        objective_out,
        lambda_out,
        z_l_out,
        z_u_out,
        status,
        history,
    } && x_in.len() == size.n && lambda_in.len() == size.m && z_l_in.len() == size.n
        && z_u_in.len() == size.n && result.solution.x@ == x_out && result.solution.constraints@
        == constraints_out && result.solution.objective == objective_out
        && result.solution.lambda@ == lambda_out && result.solution.z_l@ == z_l_out
        && result.solution.z_u@ == z_u_out && result.status == status && result.performance
        == counters_for(history) && sparsity_discipline_ok(history)
}

/// The main application type for making calls to the solver: holds the
/// configured options and orchestrates one solve per `optimize_tnlp` call.
#[derive(Clone, Debug, PartialEq, Eq)]
pub struct Application {
    int_options: OptionStore<i32>,
    numeric_options: OptionStore<Number>,
    string_options: OptionStore<String>,
}

impl Application {
    /// The configured integer options, by name.
    pub closed spec fn int_options_map(&self) -> Map<Seq<char>, i32> {
        self.int_options.as_map()
    }

    /// The configured numeric options, by name.
    pub closed spec fn numeric_options_map(&self) -> Map<Seq<char>, Number> {
        self.numeric_options.as_map()
    }

    /// The configured string options, by name.
    pub closed spec fn string_options_map(&self) -> Map<Seq<char>, String> {
        self.string_options.as_map()
    }

    /// The engine calls that push the configured integer options.
    pub closed spec fn int_option_calls(&self) -> Seq<EngineCall> {
        integer_calls_of(self.int_options.spec_entries())
    }

    /// The engine calls that push the configured numeric options.
    pub closed spec fn numeric_option_calls(&self) -> Seq<EngineCall> {
        numeric_calls_of(self.numeric_options.spec_entries())
    }

    /// The engine calls that push the configured string options.
    pub closed spec fn string_option_calls(&self) -> Seq<EngineCall> {
        string_calls_of(self.string_options.spec_entries())
    }

    /// The option stores hold one entry per name.
    pub closed spec fn wf(&self) -> bool {
        &&& self.int_options.wf()
        &&& self.numeric_options.wf()
        &&& self.string_options.wf()
    }

    /// Every configured option name, and every string option value, can be
    /// transported to the engine as a null-terminated string.
    pub open spec fn options_c_compatible(&self) -> bool {
        &&& (forall|k: Seq<char>| #[trigger]
            self.int_options_map().dom().contains(k) ==> c_compatible_text(k))
        &&& (forall|k: Seq<char>| #[trigger]
            self.numeric_options_map().dom().contains(k) ==> c_compatible_text(k))
        &&& (forall|k: Seq<char>| #[trigger]
            self.string_options_map().dom().contains(k) ==> c_compatible_text(k)
                && c_compatible_text(self.string_options_map()[k]@))
    }

    /// Creates a new instance of an `Application` with no options configured.
    pub fn new() -> (app: Application)
        ensures
            app.wf(),
            app.int_options_map() == Map::<Seq<char>, i32>::empty(),
            app.numeric_options_map() == Map::<Seq<char>, Number>::empty(),
            app.string_options_map() == Map::<Seq<char>, String>::empty(),
    {
        Application {
            int_options: OptionStore::new(),
            numeric_options: OptionStore::new(),
            string_options: OptionStore::new(),
        }
    }

    /// Sets an integer option; a later value for the same name wins.
    pub fn set_integer_option(&mut self, key: String, value: i32)
        requires
            old(self).wf(),
        ensures
            final(self).wf(),
            final(self).int_options_map() == old(self).int_options_map().insert(key@, value),
            final(self).numeric_options_map() == old(self).numeric_options_map(),
            final(self).string_options_map() == old(self).string_options_map(),
    {
        self.int_options.set(key, value);
    }

    /// Sets a numeric option; a later value for the same name wins.
    pub fn set_numeric_option(&mut self, key: String, value: Number)
        requires
            old(self).wf(),
        ensures
            final(self).wf(),
            final(self).numeric_options_map() == old(self).numeric_options_map().insert(
                key@,
                value,
            ),
            final(self).int_options_map() == old(self).int_options_map(),
            final(self).string_options_map() == old(self).string_options_map(),
    {
        self.numeric_options.set(key, value);
    }

    /// Sets a string option; a later value for the same name wins.
    pub fn set_string_option(&mut self, key: String, value: String)
        requires
            old(self).wf(),
        ensures
            final(self).wf(),
            final(self).string_options_map() == old(self).string_options_map().insert(
                key@,
                value,
            ),
            final(self).int_options_map() == old(self).int_options_map(),
            final(self).numeric_options_map() == old(self).numeric_options_map(),
    {
        self.string_options.set(key, value);
    }

    /// Optimizes the problem: queries its dimensions, bounds and starting
    /// point once each, builds the engine's problem handle, pushes every
    /// configured option, runs the engine's blocking solve, and reassembles
    /// the engine's output buffers, the status code and the evaluation
    /// counters into an [`OptimizationResult`].
    ///
    /// The call aborts with [`OptimizeError::DimensionOverflow`] exactly
    /// when a declared dimension is negative, before any engine call; and
    /// with [`OptimizeError::InvalidOptionString`] exactly when some option
    /// cannot be transported, in which case the handle is released before
    /// returning. Missing initial multipliers are defaulted to all-ones
    /// buffers of the declared length before the handle is constructed.
    ///
    /// The transcript clauses fix the engine exchange: one create call with
    /// the declared dimensions and the filled bounds, the configured option
    /// calls, at most one solve — whose outputs are returned verbatim as the
    /// solution, status and counters — and a free on every path after the
    /// create.
    pub fn optimize_tnlp<P: Tnlp, E: SolverInterface<P>>(
        &self,
        problem: P,
        engine: &mut EngineDriver<P, E>,
    ) -> (result: Result<OptimizationResult, OptimizeError>)
        requires
            self.wf(),
        ensures
            (result matches Err(e) && e == OptimizeError::DimensionOverflow)
                <==> !problem.info().non_negative(),
            (result matches Err(e) && e == OptimizeError::DimensionOverflow) ==> *final(engine)
                == *old(engine),
            (result matches Err(e) && e == OptimizeError::InvalidOptionString) <==> (
            problem.info().non_negative() && !self.options_c_compatible()),
            result is Ok <==> (problem.info().non_negative() && self.options_c_compatible()),
            result matches Ok(r) ==> (r.solution.x@.len() == problem.info().n
                && r.solution.constraints@.len() == problem.info().m && r.solution.lambda@.len()
                == problem.info().m && r.solution.z_l@.len() == problem.info().n
                && r.solution.z_u@.len() == problem.info().n),
            result matches Ok(r) ==> (exists|create: EngineCall, run: EngineCall|
                (final(engine).call_log() == old(engine).call_log() + seq![create]
                    + self.int_option_calls() + self.string_option_calls()
                    + self.numeric_option_calls() + seq![run, EngineCall::FreeProblem]
                    && is_create_for(create, problem.info()) && solve_call_matches(
                    run,
                    r,
                    problem.info(),
                ))),
            (result matches Err(e) && e == OptimizeError::InvalidOptionString) ==> (exists|
                create: EngineCall,
                attempts: Seq<EngineCall>,
            |
                (final(engine).call_log() == old(engine).call_log() + seq![create] + attempts
                    + seq![EngineCall::FreeProblem] && is_create_for(create, problem.info())
                    && all_option_calls(attempts))),
    {
        let size = problem.get_nlp_info();
        if size.n < 0 || size.m < 0 || size.nnz_jac < 0 || size.nnz_hess < 0 {
            return Err(OptimizeError::DimensionOverflow);
        }
        let n = size.n as usize;
        let m = size.m as usize;

        let mut x_l = repeated(n, Number::zero());
        let mut x_u = repeated(n, Number::zero());
        let mut g_l = repeated(m, Number::zero());
        let mut g_u = repeated(m, Number::zero());
        problem.get_bounds_info(&mut x_l, &mut x_u, &mut g_l, &mut g_u);

        let init = problem.get_starting_point();
        let mut x = init.x;
        let mut lambda = multipliers_or_default(init.lambda, m);
        let mut z_l = multipliers_or_default(init.z_l, n);
        let mut z_u = multipliers_or_default(init.z_u, n);
        let mut g = repeated(m, Number::zero());
        let mut objective = Number::zero();

        let mut user_data = UserData::new(problem, size);

        let ghost log0 = engine.call_log();
        engine.create_problem(&size, &x_l, &x_u, &g_l, &g_u, 0);
        let ghost create_entry = EngineCall::CreateProblem {
            size,
            x_l: x_l@,
            x_u: x_u@,
            g_l: g_l@,
            g_u: g_u@,
            index_base: 0,
        };
        let ghost log1 = engine.call_log();
        proof {
            assert(log1 =~= log0 + seq![create_entry]);
            assert(is_create_for(create_entry, problem.info()));
        }

        let ok_int = apply_integer_options(&self.int_options, engine);
        let ghost log2 = engine.call_log();
        if !ok_int {
            engine.free_problem();
            proof {
                assert(self.int_options_map() == self.int_options.as_map());
                assert(!self.options_c_compatible());
                let j = choose|j: int|
                    0 <= j <= self.int_options.spec_entries().len() && log2 == log1
                        + integer_calls_of(self.int_options.spec_entries().take(j));
                let attempts = integer_calls_of(self.int_options.spec_entries().take(j));
                assert(all_option_calls(attempts));
                assert(engine.call_log() =~= log0 + seq![create_entry] + attempts + seq![
                    EngineCall::FreeProblem,
                ]);
            }
            return Err(OptimizeError::InvalidOptionString);
        }

        let ok_str = apply_string_options(&self.string_options, engine);
        let ghost log3 = engine.call_log();
        if !ok_str {
            engine.free_problem();
            proof {
                assert(self.string_options_map() == self.string_options.as_map());
                assert(!self.options_c_compatible());
                let j = choose|j: int|
                    0 <= j <= self.string_options.spec_entries().len() && log3 == log2
                        + string_calls_of(self.string_options.spec_entries().take(j));
                let attempts = self.int_option_calls() + string_calls_of(
                    self.string_options.spec_entries().take(j),
                );
                assert(all_option_calls(attempts));
                assert(engine.call_log() =~= log0 + seq![create_entry] + attempts + seq![
                    EngineCall::FreeProblem,
                ]);
            }
            return Err(OptimizeError::InvalidOptionString);
        }

        let ok_num = apply_numeric_options(&self.numeric_options, engine);
        let ghost log4 = engine.call_log();
        if !ok_num {
            engine.free_problem();
            proof {
                assert(self.numeric_options_map() == self.numeric_options.as_map());
                assert(!self.options_c_compatible());
                let j = choose|j: int|
                    0 <= j <= self.numeric_options.spec_entries().len() && log4 == log3
                        + numeric_calls_of(self.numeric_options.spec_entries().take(j));
                let attempts = self.int_option_calls() + self.string_option_calls()
                    + numeric_calls_of(self.numeric_options.spec_entries().take(j));
                assert(all_option_calls(attempts));
                assert(engine.call_log() =~= log0 + seq![create_entry] + attempts + seq![
                    EngineCall::FreeProblem,
                ]);
            }
            return Err(OptimizeError::InvalidOptionString);
        }
        proof {
            assert(self.int_options_map() == self.int_options.as_map());
            assert(self.numeric_options_map() == self.numeric_options.as_map());
            assert(self.string_options_map() == self.string_options.as_map());
            assert(self.options_c_compatible());
        }

        let ghost x_before = x@;
        let ghost lambda_before = lambda@;
        let ghost z_l_before = z_l@;
        let ghost z_u_before = z_u@;
        let status = engine.solve(
            &mut user_data,
            &mut x,
            &mut g,
            &mut objective,
            &mut lambda,
            &mut z_l,
            &mut z_u,
        );
        let ghost run_entry = EngineCall::Solve {
            x_in: x_before,
            lambda_in: lambda_before,
            z_l_in: z_l_before,
            z_u_in: z_u_before,
            x_out: x@,
            constraints_out: g@,
            objective_out: objective,
            lambda_out: lambda@,
            z_l_out: z_l@,
            z_u_out: z_u@,
            status,
            history: user_data.callback_history(),
        };
        engine.free_problem();

        let ghost history = user_data.callback_history();
        proof {
            lemma_counters_match_history(user_data);
            lemma_counters_count_kinds(history);
            assert(user_data.spec_results().performance == counters_for(history));
            assert(history.skip(0) =~= history);
        }
        let result = user_data.into_result(status, x, g, objective, lambda, z_l, z_u);
        proof {
            assert(result.performance == counters_for(history));
            assert(solve_call_matches(run_entry, result, problem.info()));
            assert(engine.call_log() =~= log0 + seq![create_entry] + self.int_option_calls()
                + self.string_option_calls() + self.numeric_option_calls() + seq![
                run_entry,
                EngineCall::FreeProblem,
            ]);
        }
        Ok(result)
    }
}

impl Default for Application {
    /// Returns an `Application` with no options configured.
    fn default() -> (app: Application)
        ensures
            app.wf(),
            app.int_options_map() == Map::<Seq<char>, i32>::empty(),
            app.numeric_options_map() == Map::<Seq<char>, Number>::empty(),
            app.string_options_map() == Map::<Seq<char>, String>::empty(),
    {
        Application::new()
    }
}

/// What [`Application::int_option_calls`] (and its numeric and string
/// siblings) hold: one option call per configured name, carrying the last
/// value set for that name, with no name repeated and nothing else among
/// them.
pub proof fn lemma_option_calls_content(app: Application)
    requires
        app.wf(),
    ensures
        forall|i: int|
            0 <= i < app.int_option_calls().len() ==> (#[trigger] app.int_option_calls()[i]
                matches EngineCall::AddIntegerOption { name, value }
                && app.int_options_map().contains_pair(name, value)),
        forall|k: Seq<char>| #[trigger]
            app.int_options_map().dom().contains(k) ==> (exists|i: int|
                0 <= i < app.int_option_calls().len() && app.int_option_calls()[i]
                    == (EngineCall::AddIntegerOption { name: k, value: app.int_options_map()[k] })),
        forall|i: int, j: int|
            #![trigger option_call_name(app.int_option_calls()[i]), option_call_name(app.int_option_calls()[j])]
            0 <= i < j < app.int_option_calls().len() ==> option_call_name(app.int_option_calls()[i])
                != option_call_name(app.int_option_calls()[j]),
        forall|i: int|
            0 <= i < app.numeric_option_calls().len() ==> (#[trigger] app.numeric_option_calls()[i]
                matches EngineCall::AddNumericOption { name, value }
                && app.numeric_options_map().contains_pair(name, value)),
        forall|k: Seq<char>| #[trigger]
            app.numeric_options_map().dom().contains(k) ==> (exists|i: int|
                0 <= i < app.numeric_option_calls().len() && app.numeric_option_calls()[i]
                    == (EngineCall::AddNumericOption {
                    name: k,
                    value: app.numeric_options_map()[k],
                })),
        forall|i: int, j: int|
            #![trigger option_call_name(app.numeric_option_calls()[i]), option_call_name(app.numeric_option_calls()[j])]
            0 <= i < j < app.numeric_option_calls().len() ==> option_call_name(app.numeric_option_calls()[i])
                != option_call_name(app.numeric_option_calls()[j]),
        forall|i: int|
            0 <= i < app.string_option_calls().len() ==> (#[trigger] app.string_option_calls()[i]
                matches EngineCall::AddStringOption { name, value }
                && app.string_options_map().dom().contains(name)
                && app.string_options_map()[name]@ == value),
        forall|k: Seq<char>| #[trigger]
            app.string_options_map().dom().contains(k) ==> (exists|i: int|
                0 <= i < app.string_option_calls().len() && app.string_option_calls()[i]
                    == (EngineCall::AddStringOption {
                    name: k,
                    value: app.string_options_map()[k]@,
                })),
        forall|i: int, j: int|
            #![trigger option_call_name(app.string_option_calls()[i]), option_call_name(app.string_option_calls()[j])]
            0 <= i < j < app.string_option_calls().len() ==> option_call_name(app.string_option_calls()[i])
                != option_call_name(app.string_option_calls()[j]),
{
    let int_entries = app.int_options.spec_entries();
    assert forall|i: int| 0 <= i < app.int_option_calls().len() implies (
    #[trigger] app.int_option_calls()[i] matches EngineCall::AddIntegerOption { name, value }
        && app.int_options_map().contains_pair(name, value)) by {
        lemma_pairs_to_map_value(int_entries, i);
    }
    assert forall|k: Seq<char>| #[trigger] app.int_options_map().dom().contains(k) implies (exists|
        i: int,
    |
        0 <= i < app.int_option_calls().len() && app.int_option_calls()[i]
            == (EngineCall::AddIntegerOption { name: k, value: app.int_options_map()[k] })) by {
        lemma_pairs_to_map_dom(int_entries);
        let i = choose|i: int| 0 <= i < int_entries.len() && int_entries[i].0@ == k;
        lemma_pairs_to_map_value(int_entries, i);
        assert(app.int_option_calls()[i] == (EngineCall::AddIntegerOption {
            name: k,
            value: app.int_options_map()[k],
        }));
    }
    let num_entries = app.numeric_options.spec_entries();
    assert forall|i: int| 0 <= i < app.numeric_option_calls().len() implies (
    #[trigger] app.numeric_option_calls()[i] matches EngineCall::AddNumericOption { name, value }
        && app.numeric_options_map().contains_pair(name, value)) by {
        lemma_pairs_to_map_value(num_entries, i);
    }
    assert forall|k: Seq<char>| #[trigger] app.numeric_options_map().dom().contains(k) implies (
    exists|i: int|
        0 <= i < app.numeric_option_calls().len() && app.numeric_option_calls()[i]
            == (EngineCall::AddNumericOption { name: k, value: app.numeric_options_map()[k] })) by {
        lemma_pairs_to_map_dom(num_entries);
        let i = choose|i: int| 0 <= i < num_entries.len() && num_entries[i].0@ == k;
        lemma_pairs_to_map_value(num_entries, i);
        assert(app.numeric_option_calls()[i] == (EngineCall::AddNumericOption {
            name: k,
            value: app.numeric_options_map()[k],
        }));
    }
    let str_entries = app.string_options.spec_entries();
    assert forall|i: int| 0 <= i < app.string_option_calls().len() implies (
    #[trigger] app.string_option_calls()[i] matches EngineCall::AddStringOption { name, value }
        && app.string_options_map().dom().contains(name) && app.string_options_map()[name]@
        == value) by {
        lemma_pairs_to_map_value(str_entries, i);
    }
    assert forall|k: Seq<char>| #[trigger] app.string_options_map().dom().contains(k) implies (
    exists|i: int|
        0 <= i < app.string_option_calls().len() && app.string_option_calls()[i]
            == (EngineCall::AddStringOption { name: k, value: app.string_options_map()[k]@ })) by {
        lemma_pairs_to_map_dom(str_entries);
        let i = choose|i: int| 0 <= i < str_entries.len() && str_entries[i].0@ == k;
        lemma_pairs_to_map_value(str_entries, i);
        assert(app.string_option_calls()[i] == (EngineCall::AddStringOption {
            name: k,
            value: app.string_options_map()[k]@,
        }));
    }
}

/// The option name an option call carries; the empty text for other calls.
pub open spec fn option_call_name(call: EngineCall) -> Seq<char> {
    match call {
        EngineCall::AddIntegerOption { name, .. } => name,
        EngineCall::AddNumericOption { name, .. } => name,
        EngineCall::AddStringOption { name, .. } => name,
        _ => Seq::empty(),
    }
}

/// Pushes every stored integer option into the engine, in store order,
/// stopping at the first name that no null-terminated string can carry.
/// Returns whether every name was carried.
fn apply_integer_options<P: Tnlp, E: SolverInterface<P>>(
    store: &OptionStore<i32>,
    engine: &mut EngineDriver<P, E>,
) -> (ok: bool)
    requires
        store.wf(),
    ensures
        ok == forall|k: Seq<char>| #[trigger]
            store.as_map().dom().contains(k) ==> c_compatible_text(k),
        ok ==> final(engine).call_log() == old(engine).call_log() + integer_calls_of(
            store.spec_entries(),
        ),
        !ok ==> (exists|j: int|
            0 <= j <= store.spec_entries().len() && final(engine).call_log() == old(
                engine,
            ).call_log() + integer_calls_of(store.spec_entries().take(j))),
{
    let entries = store.entries();
    proof {
        assert(entries@.take(0) =~= Seq::<(String, i32)>::empty());
        assert(engine.call_log() =~= engine.call_log() + integer_calls_of(entries@.take(0)));
    }
    let mut i: usize = 0;
    while i < entries.len()
        invariant
            entries@ == store.spec_entries(),
            store.wf(),
            i <= entries@.len(),
            forall|j: int| 0 <= j < i ==> c_compatible_text(entries@[j].0@),
            engine.call_log() == old(engine).call_log() + integer_calls_of(
                entries@.take(i as int),
            ),
        decreases entries@.len() - i,
    {
        if !c_string_compatible(entries[i].0.as_str()) {
            proof {
                lemma_pairs_to_map_value(store.spec_entries(), i as int);
                assert(store.as_map().dom().contains(entries@[i as int].0@));
                assert(!c_compatible_text(entries@[i as int].0@));
            }
            return false;
        }
        engine.add_integer_option(entries[i].0.as_str(), entries[i].1);
        proof {
            assert(entries@.take(i + 1) =~= entries@.take(i as int).push(entries@[i as int]));
            assert(integer_calls_of(entries@.take(i + 1)) =~= integer_calls_of(
                entries@.take(i as int),
            ).push(
                (EngineCall::AddIntegerOption {
                    name: entries@[i as int].0@,
                    value: entries@[i as int].1,
                }),
            ));
            assert(engine.call_log() =~= old(engine).call_log() + integer_calls_of(
                entries@.take(i + 1),
            ));
        }
        i = i + 1;
    }
    proof {
        assert(entries@.take(entries@.len() as int) =~= entries@);
        lemma_pairs_to_map_dom(store.spec_entries());
        assert forall|k: Seq<char>| #[trigger]
            store.as_map().dom().contains(k) implies c_compatible_text(k) by {
            let j = choose|j: int|
                0 <= j < store.spec_entries().len() && store.spec_entries()[j].0@ == k;
        }
    }
    true
}

/// Pushes every stored numeric option into the engine, in store order,
/// stopping at the first name that no null-terminated string can carry.
/// Returns whether every name was carried.
fn apply_numeric_options<P: Tnlp, E: SolverInterface<P>>(
    store: &OptionStore<Number>,
    engine: &mut EngineDriver<P, E>,
) -> (ok: bool)
    requires
        store.wf(),
    ensures
        ok == forall|k: Seq<char>| #[trigger]
            store.as_map().dom().contains(k) ==> c_compatible_text(k),
        ok ==> final(engine).call_log() == old(engine).call_log() + numeric_calls_of(
            store.spec_entries(),
        ),
        !ok ==> (exists|j: int|
            0 <= j <= store.spec_entries().len() && final(engine).call_log() == old(
                engine,
            ).call_log() + numeric_calls_of(store.spec_entries().take(j))),
{
    let entries = store.entries();
    proof {
        assert(entries@.take(0) =~= Seq::<(String, Number)>::empty());
        assert(engine.call_log() =~= engine.call_log() + numeric_calls_of(entries@.take(0)));
    }
    let mut i: usize = 0;
    while i < entries.len()
        invariant
            entries@ == store.spec_entries(),
            store.wf(),
            i <= entries@.len(),
            forall|j: int| 0 <= j < i ==> c_compatible_text(entries@[j].0@),
            engine.call_log() == old(engine).call_log() + numeric_calls_of(
                entries@.take(i as int),
            ),
        decreases entries@.len() - i,
    {
        if !c_string_compatible(entries[i].0.as_str()) {
            proof {
                lemma_pairs_to_map_value(store.spec_entries(), i as int);
                assert(store.as_map().dom().contains(entries@[i as int].0@));
                assert(!c_compatible_text(entries@[i as int].0@));
            }
            return false;
        }
        engine.add_numeric_option(entries[i].0.as_str(), entries[i].1);
        proof {
            assert(entries@.take(i + 1) =~= entries@.take(i as int).push(entries@[i as int]));
            assert(numeric_calls_of(entries@.take(i + 1)) =~= numeric_calls_of(
                entries@.take(i as int),
            ).push(
                (EngineCall::AddNumericOption {
                    name: entries@[i as int].0@,
                    value: entries@[i as int].1,
                }),
            ));
            assert(engine.call_log() =~= old(engine).call_log() + numeric_calls_of(
                entries@.take(i + 1),
            ));
        }
        i = i + 1;
    }
    proof {
        assert(entries@.take(entries@.len() as int) =~= entries@);
        lemma_pairs_to_map_dom(store.spec_entries());
        assert forall|k: Seq<char>| #[trigger]
            store.as_map().dom().contains(k) implies c_compatible_text(k) by {
            let j = choose|j: int|
                0 <= j < store.spec_entries().len() && store.spec_entries()[j].0@ == k;
        }
    }
    true
}

/// Pushes every stored string option into the engine, in store order,
/// stopping at the first name or value that no null-terminated string can
/// carry. Returns whether every name and value was carried.
fn apply_string_options<P: Tnlp, E: SolverInterface<P>>(
    store: &OptionStore<String>,
    engine: &mut EngineDriver<P, E>,
) -> (ok: bool)
    requires
        store.wf(),
    ensures
        ok == forall|k: Seq<char>| #[trigger]
            store.as_map().dom().contains(k) ==> c_compatible_text(k) && c_compatible_text(
                store.as_map()[k]@,
            ),
        ok ==> final(engine).call_log() == old(engine).call_log() + string_calls_of(
            store.spec_entries(),
        ),
        !ok ==> (exists|j: int|
            0 <= j <= store.spec_entries().len() && final(engine).call_log() == old(
                engine,
            ).call_log() + string_calls_of(store.spec_entries().take(j))),
{
    let entries = store.entries();
    proof {
        assert(entries@.take(0) =~= Seq::<(String, String)>::empty());
        assert(engine.call_log() =~= engine.call_log() + string_calls_of(entries@.take(0)));
    }
    let mut i: usize = 0;
    while i < entries.len()
        invariant
            entries@ == store.spec_entries(),
            store.wf(),
            i <= entries@.len(),
            forall|j: int|
                0 <= j < i ==> c_compatible_text(entries@[j].0@) && c_compatible_text(
                    entries@[j].1@,
                ),
            engine.call_log() == old(engine).call_log() + string_calls_of(entries@.take(i as int)),
        decreases entries@.len() - i,
    {
        if !c_string_compatible(entries[i].0.as_str()) || !c_string_compatible(
            entries[i].1.as_str(),
        ) {
            proof {
                lemma_pairs_to_map_value(store.spec_entries(), i as int);
                assert(store.as_map().dom().contains(entries@[i as int].0@));
                assert(store.as_map()[entries@[i as int].0@] == entries@[i as int].1);
                assert(!(c_compatible_text(entries@[i as int].0@) && c_compatible_text(
                    store.as_map()[entries@[i as int].0@]@,
                )));
            }
            return false;
        }
        engine.add_string_option(entries[i].0.as_str(), entries[i].1.as_str());
        proof {
            assert(entries@.take(i + 1) =~= entries@.take(i as int).push(entries@[i as int]));
            assert(string_calls_of(entries@.take(i + 1)) =~= string_calls_of(
                entries@.take(i as int),
            ).push(
                (EngineCall::AddStringOption {
                    name: entries@[i as int].0@,
                    value: entries@[i as int].1@,
                }),
            ));
            assert(engine.call_log() =~= old(engine).call_log() + string_calls_of(
                entries@.take(i + 1),
            ));
        }
        i = i + 1;
    }
    proof {
        assert(entries@.take(entries@.len() as int) =~= entries@);
        lemma_pairs_to_map_dom(store.spec_entries());
        assert forall|k: Seq<char>| #[trigger]
            store.as_map().dom().contains(k) implies c_compatible_text(k) && c_compatible_text(
            store.as_map()[k]@,
        ) by {
            let j = choose|j: int|
                0 <= j < store.spec_entries().len() && store.spec_entries()[j].0@ == k;
            lemma_pairs_to_map_value(store.spec_entries(), j);
        }
    }
    true
}

} // verus!
