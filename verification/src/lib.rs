//! A safe, verified orchestration layer over a nonlinear-programming
//! solver's C-style calling convention.
//!
//! A user describes a nonlinear problem by implementing [`tnlp::Tnlp`]. The
//! solver engine itself is an opaque black box behind
//! [`interface::SolverInterface`]: it is handed the declared dimensions,
//! bounds and configured options, and during its blocking solve it drives
//! the evaluation callbacks of a [`session::UserData`], the safe counterpart
//! of the protocol's opaque user-data pointer.
//! [`application::Application::optimize_tnlp`] wires the two together for
//! exactly one solve and assembles the final
//! [`results::OptimizationResult`].
//!
//! The engine's double-precision values are never computed with here, only
//! allocated, copied and defaulted, so they travel as opaque
//! [`numeric::Number`] bit patterns.

pub mod application;
pub mod interface;
pub mod numeric;
pub mod options;
pub mod results;
pub mod session;
pub mod tnlp;

pub use application::Application;
pub use application::OptimizeError;
pub use interface::EngineCall;
pub use interface::EngineDriver;
pub use interface::SolverInterface;
pub use numeric::Number;
pub use options::OptionStore;
pub use results::EvalKind;
pub use results::OptimizationResult;
pub use results::PerformanceResults;
pub use results::Solution;
pub use session::HessianRequest;
pub use session::JacobianRequest;
pub use session::MatrixReply;
pub use session::ProblemCall;
pub use session::UserData;
pub use tnlp::InitialSolution;
pub use tnlp::ProblemSize;
pub use tnlp::Tnlp;
