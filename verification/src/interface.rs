//! The native solver boundary: the engine trait, and the driver that keeps
//! a transcript of every call made through it.
//!
//! The solver engine is an opaque black box: its four lifecycle stages —
//! create a problem handle, push configuration options, run the blocking
//! solve, release the handle — appear as the methods of
//! [`SolverInterface`], and nothing is assumed of what they compute. The
//! `requires` clauses record what the protocol owes the engine: buffers
//! sized to the declared dimensions, strings that a null-terminated
//! transport can carry, zero-based sparsity indices. During
//! [`SolverInterface::solve`] the engine drives the evaluation callbacks of
//! the [`UserData`] it was handed, on the calling thread, and returns its
//! raw status code; the `ensures` there state only the shape of that
//! exchange — buffers mutated in place, a session reached through its own
//! callbacks, sparsity patterns queried at most once and before any value
//! evaluation — never a word about the solution the engine finds.
//!
//! An [`EngineDriver`] wraps an engine and appends one [`EngineCall`] to a
//! ghost transcript per call made through it, carrying the values the call
//! passed and, for the solve, what came back. The driver's methods are the
//! only way its transcript grows, so a contract over the transcript pins
//! which engine calls a function makes.

use vstd::prelude::*;

use core::marker::PhantomData;

use crate::numeric::Number;
use crate::options::c_compatible_text;
use crate::results::EvalKind;
use crate::session::UserData;
use crate::session::sparsity_discipline_ok;
use crate::tnlp::ProblemSize;
use crate::tnlp::Tnlp;

verus! {

/// One call made through the solver boundary, with the values it carried.
pub enum EngineCall {
    /// The problem handle was built from the declared dimensions, the
    /// bounds, the sparsity counts and the index base.
    CreateProblem {
        size: ProblemSize,
        x_l: Seq<Number>,
        x_u: Seq<Number>,
        g_l: Seq<Number>,
        g_u: Seq<Number>,
        index_base: i32,
    },
    /// An integer option was pushed into the handle.
    AddIntegerOption { name: Seq<char>, value: i32 },
    /// A numeric option was pushed into the handle.
    AddNumericOption { name: Seq<char>, value: Number },
    /// A string option was pushed into the handle.
    AddStringOption { name: Seq<char>, value: Seq<char> },
    /// The blocking solve ran: it received the initial point and
    /// multipliers, left its final values in the buffers, returned the raw
    /// status code, and drove the recorded callback history on the session.
    Solve {
        x_in: Seq<Number>,
        lambda_in: Seq<Number>,
        z_l_in: Seq<Number>,
        z_u_in: Seq<Number>,
        x_out: Seq<Number>,
        constraints_out: Seq<Number>,
        objective_out: Number,
        lambda_out: Seq<Number>,
        z_l_out: Seq<Number>,
        z_u_out: Seq<Number>,
        status: i32,
        history: Seq<EvalKind>,
    },
    /// The problem handle was released.
    FreeProblem,
}

/// Whether `call` pushes an option of some category into the handle.
pub open spec fn is_option_call(call: EngineCall) -> bool {
    ||| call is AddIntegerOption
    ||| call is AddNumericOption
    ||| call is AddStringOption
}

/// Every call in `calls` pushes an option.
pub open spec fn all_option_calls(calls: Seq<EngineCall>) -> bool {
    forall|i: int| 0 <= i < calls.len() ==> is_option_call(#[trigger] calls[i])
}

/// `call` builds the handle for a problem of dimensions `size`: it carries
/// exactly those dimensions, bounds buffers of the declared lengths, and the
/// zero index base.
pub open spec fn is_create_for(call: EngineCall, size: ProblemSize) -> bool {
    call matches EngineCall::CreateProblem { size: s, x_l, x_u, g_l, g_u, index_base } && s == size
        && index_base == 0 && x_l.len() == size.n && x_u.len() == size.n && g_l.len() == size.m
        && g_u.len() == size.m
}

/// One solver engine able to optimize problems of type `P`. Implementations
/// are stateful: a created problem handle lives inside the implementation
/// until `free_problem`.
pub trait SolverInterface<P: Tnlp> {
    /// Builds the native problem handle from the declared dimensions, the
    /// variable and constraint bounds, and the sparsity counts. The index
    /// base of all sparsity coordinates is fixed to zero (C-style).
    fn create_problem(
        &mut self,
        size: &ProblemSize,
        x_l: &Vec<Number>,
        x_u: &Vec<Number>,
        g_l: &Vec<Number>,
        g_u: &Vec<Number>,
        index_base: i32,
    )
        requires
            size.wf(),
            x_l@.len() == size.n,
            x_u@.len() == size.n,
            g_l@.len() == size.m,
            g_u@.len() == size.m,
            index_base == 0,
    ;

    /// Sets an integer option on the problem handle.
    fn add_integer_option(&mut self, name: &str, value: i32)
        requires
            c_compatible_text(name@),
    ;

    /// Sets a numeric option on the problem handle.
    fn add_numeric_option(&mut self, name: &str, value: Number)
        requires
            c_compatible_text(name@),
    ;

    /// Sets a string option on the problem handle.
    fn add_string_option(&mut self, name: &str, value: &str)
        requires
            c_compatible_text(name@),
            c_compatible_text(value@),
    ;

    /// Runs the blocking solve. The engine reads the initial point and
    /// multipliers from the buffers, re-enters `user_data`'s callbacks as
    /// often as it needs to, mutates the buffers toward its final point, and
    /// returns its raw status code. All buffers are sized to the declared
    /// dimensions on entry.
    ///
    /// The `ensures` clauses record what an engine owes the protocol: it
    /// mutates the fixed-size buffers in place, never resizing them; it
    /// reaches the session only through its callback methods, each of which
    /// keeps the session invariant and its recorded dimensions; and it
    /// queries each sparsity pattern at most once, before any value
    /// evaluation of the same matrix.
    fn solve(
        &mut self,
        user_data: &mut UserData<P>,
        x: &mut Vec<Number>,
        g: &mut Vec<Number>,
        objective: &mut Number,
        lambda: &mut Vec<Number>,
        z_l: &mut Vec<Number>,
        z_u: &mut Vec<Number>,
    ) -> (status: i32)
        requires
            old(user_data).inv(),
            old(x)@.len() == old(user_data).spec_size().n,
            old(g)@.len() == old(user_data).spec_size().m,
            old(lambda)@.len() == old(user_data).spec_size().m,
            old(z_l)@.len() == old(user_data).spec_size().n,
            old(z_u)@.len() == old(user_data).spec_size().n,
        ensures
            final(user_data).inv(),
            final(user_data).spec_size() == old(user_data).spec_size(),
            final(x)@.len() == old(x)@.len(),
            final(g)@.len() == old(g)@.len(),
            final(lambda)@.len() == old(lambda)@.len(),
            final(z_l)@.len() == old(z_l)@.len(),
            final(z_u)@.len() == old(z_u)@.len(),
            sparsity_discipline_ok(
                final(user_data).callback_history().skip(
                    old(user_data).callback_history().len() as int,
                ),
            ),
    ;

    /// Releases the problem handle. Called on every exit path of an
    /// `optimize_tnlp` call that created one.
    fn free_problem(&mut self);
}

/// Wraps a solver engine and keeps a ghost transcript of every call made
/// through it. The wrapper's methods are the only way the transcript grows,
/// and each appends exactly the one call it performs, so a contract over
/// the transcript pins which engine calls its holder makes, in order.
pub struct EngineDriver<P: Tnlp, E: SolverInterface<P>> {
    engine: E,
    calls: Ghost<Seq<EngineCall>>,
    problem_kind: PhantomData<P>,
}

impl<P: Tnlp, E: SolverInterface<P>> EngineDriver<P, E> {
    /// Every call made through this driver so far, in order.
    pub closed spec fn call_log(&self) -> Seq<EngineCall> {
        self.calls@
    }

    /// The wrapped engine.
    pub closed spec fn spec_engine(&self) -> E {
        self.engine
    }

    /// Wraps `engine` with an empty transcript.
    pub fn new(engine: E) -> (driver: EngineDriver<P, E>)
        ensures
            driver.call_log() == Seq::<EngineCall>::empty(),
            driver.spec_engine() == engine,
    {
        EngineDriver { engine, calls: Ghost(Seq::empty()), problem_kind: PhantomData }
    }

    /// Unwraps the engine, discarding the transcript.
    pub fn into_engine(self) -> (engine: E)
        ensures
            engine == self.spec_engine(),
    {
        self.engine
    }

    /// Builds the problem handle; see [`SolverInterface::create_problem`].
    pub fn create_problem(
        &mut self,
        size: &ProblemSize,
        x_l: &Vec<Number>,
        x_u: &Vec<Number>,
        g_l: &Vec<Number>,
        g_u: &Vec<Number>,
        index_base: i32,
    )
        requires
            size.wf(),
            x_l@.len() == size.n,
            x_u@.len() == size.n,
            g_l@.len() == size.m,
            g_u@.len() == size.m,
            index_base == 0,
        ensures
            final(self).call_log() == old(self).call_log().push(
                (EngineCall::CreateProblem {
                    size: *size,
                    x_l: x_l@,
                    x_u: x_u@,
                    g_l: g_l@,
                    g_u: g_u@,
                    index_base,
                }),
            ),
    {
        self.engine.create_problem(size, x_l, x_u, g_l, g_u, index_base);
        self.calls = Ghost(
            self.calls@.push(
                EngineCall::CreateProblem {
                    size: *size,
                    x_l: x_l@,
                    x_u: x_u@,
                    g_l: g_l@,
                    g_u: g_u@,
                    index_base,
                },
            ),
        );
    }

    /// Sets an integer option; see [`SolverInterface::add_integer_option`].
    pub fn add_integer_option(&mut self, name: &str, value: i32)
        requires
            c_compatible_text(name@),
        ensures
            final(self).call_log() == old(self).call_log().push(
                (EngineCall::AddIntegerOption { name: name@, value }),
            ),
    {
        self.engine.add_integer_option(name, value);
        self.calls = Ghost(self.calls@.push(EngineCall::AddIntegerOption { name: name@, value }));
    }

    /// Sets a numeric option; see [`SolverInterface::add_numeric_option`].
    pub fn add_numeric_option(&mut self, name: &str, value: Number)
        requires
            c_compatible_text(name@),
        ensures
            final(self).call_log() == old(self).call_log().push(
                (EngineCall::AddNumericOption { name: name@, value }),
            ),
    {
        self.engine.add_numeric_option(name, value);
        self.calls = Ghost(self.calls@.push(EngineCall::AddNumericOption { name: name@, value }));
    }

    /// Sets a string option; see [`SolverInterface::add_string_option`].
    pub fn add_string_option(&mut self, name: &str, value: &str)
        requires
            c_compatible_text(name@),
            c_compatible_text(value@),
        ensures
            final(self).call_log() == old(self).call_log().push(
                (EngineCall::AddStringOption { name: name@, value: value@ }),
            ),
    {
        self.engine.add_string_option(name, value);
        self.calls = Ghost(
            self.calls@.push(EngineCall::AddStringOption { name: name@, value: value@ }),
        );
    }

    /// Runs the blocking solve; see [`SolverInterface::solve`]. The appended
    /// transcript entry carries the initial values handed in, the final
    /// values the engine left behind, its status code, and the callback
    /// history it drove on the session.
    pub fn solve(
        &mut self,
        user_data: &mut UserData<P>,
        x: &mut Vec<Number>,
        g: &mut Vec<Number>,
        objective: &mut Number,
        lambda: &mut Vec<Number>,
        z_l: &mut Vec<Number>,
        z_u: &mut Vec<Number>,
    ) -> (status: i32)
        requires
            old(user_data).inv(),
            old(x)@.len() == old(user_data).spec_size().n,
            old(g)@.len() == old(user_data).spec_size().m,
            old(lambda)@.len() == old(user_data).spec_size().m,
            old(z_l)@.len() == old(user_data).spec_size().n,
            old(z_u)@.len() == old(user_data).spec_size().n,
        ensures
            final(user_data).inv(),
            final(user_data).spec_size() == old(user_data).spec_size(),
            final(x)@.len() == old(x)@.len(),
            final(g)@.len() == old(g)@.len(),
            final(lambda)@.len() == old(lambda)@.len(),
            final(z_l)@.len() == old(z_l)@.len(),
            final(z_u)@.len() == old(z_u)@.len(),
            sparsity_discipline_ok(
                final(user_data).callback_history().skip(
                    old(user_data).callback_history().len() as int,
                ),
            ),
            final(self).call_log() == old(self).call_log().push(
                (EngineCall::Solve {
                    x_in: old(x)@,
                    lambda_in: old(lambda)@,
                    z_l_in: old(z_l)@,
                    z_u_in: old(z_u)@,
                    x_out: final(x)@,
                    constraints_out: final(g)@,
                    objective_out: *final(objective),
                    lambda_out: final(lambda)@,
                    z_l_out: final(z_l)@,
                    z_u_out: final(z_u)@,
                    status,
                    history: final(user_data).callback_history(),
                }),
            ),
    {
        let ghost x_in = x@;
        let ghost lambda_in = lambda@;
        let ghost z_l_in = z_l@;
        let ghost z_u_in = z_u@;
        let status = self.engine.solve(user_data, x, g, objective, lambda, z_l, z_u);
        self.calls = Ghost(
            self.calls@.push(
                EngineCall::Solve {
                    x_in,
                    lambda_in,
                    z_l_in,
                    z_u_in,
                    x_out: x@,
                    constraints_out: g@,
                    objective_out: *objective,
                    lambda_out: lambda@,
                    z_l_out: z_l@,
                    z_u_out: z_u@,
                    status,
                    history: user_data.callback_history(),
                },
            ),
        );
        status
    }

    /// Releases the problem handle; see [`SolverInterface::free_problem`].
    pub fn free_problem(&mut self)
        ensures
            final(self).call_log() == old(self).call_log().push(EngineCall::FreeProblem),
    {
        self.engine.free_problem();
        self.calls = Ghost(self.calls@.push(EngineCall::FreeProblem));
    }
}

} // verus!
