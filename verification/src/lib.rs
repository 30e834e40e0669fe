//! Nonlinear conjugate gradient (NLCG) minimization core.
//!
//! The solver drives a sequence of one-dimensional line searches along
//! directions that blend the current negative gradient with the previous
//! direction through a scalar coefficient beta.  The scalar field, the
//! parameter space, the beta rule, the line search and the objective oracle
//! are all capabilities the caller supplies through traits; the driver's own
//! logic (direction recurrence, restart policy, evaluation counting and
//! error propagation) is specified and verified here.

pub mod beta;
pub mod error;
pub mod laws;
pub mod linesearch;
pub mod oracle;
pub mod scalar;
pub mod solver;
pub mod vector;

pub use beta::{BetaUpdate, PolakRibiere};
pub use error::{Error, LineSearchError, OracleError};
pub use linesearch::LineSearch;
pub use oracle::{Event, OpWrapper, Oracle};
pub use scalar::ScalarOps;
pub use solver::{Diagnostics, IterData, NonlinearConjugateGradient};
pub use vector::VectorOps;
