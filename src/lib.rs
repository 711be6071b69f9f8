//! Structured failures for a small Scheme-family interpreter: a closed
//! taxonomy of failure conditions, their messages and category labels,
//! adapters for two system failure domains, and short-circuit helpers.

pub mod decimal;
pub mod payload;
pub mod failure;

pub use crate::payload::{IoFailure, SExpr, Token, VarFailure};
pub use crate::failure::{bail, bail_with, serr, FailureView, SErr, SResult};
