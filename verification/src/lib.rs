//! A runtime condition test whose failure handling is kept off the path
//! taken when the condition holds.
//!
//! The library decides and describes; it never stops the program itself.
//! Every entry point hands back a plain value that says whether execution
//! continues or has to end, and with which diagnostic. Ending the program
//! is left to the caller, who owns the execution context.

pub mod cold;
pub mod expander;
pub mod failure;
pub mod location;

pub use expander::{fast_assert, fast_assert_with};
pub use failure::{AssertionFailure, FailureModel, Outcome};
pub use location::{LocationModel, SourceLocation};
