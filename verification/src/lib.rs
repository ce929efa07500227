//! Verified control logic of a limited-memory BFGS optimizer (with OWL-QN for
//! L1 regularization): status codes, parameter validation, the limited-memory
//! history bookkeeping, the stopping tests and the decision rules of the line
//! searches.

pub mod status;
pub mod params;
pub mod history;
pub mod stopping;
pub mod linesearch;

pub use status::{Convergence, LbfgsError, LineSearch};
