//! Core logic of an adaptive-step gradient descent tool.
//!
//! The numeric work of a run (evaluating the objective, forming finite
//! differences, scaling steps) is carried out by the caller, who owns the
//! machine representation of real numbers.  This crate verifies everything
//! that can be decided without looking inside a number: the descent state
//! machine that drives a run (iteration budget, bounded backtracking,
//! cooperative cancellation, trajectory bookkeeping, result assembly),
//! entry validation of run parameters, and the splitting of a textual
//! starting point into coordinate fields.

pub mod config;
pub mod laws;
pub mod machine;
pub mod parser;
pub mod point_text;
pub mod scalar;

pub use config::ConfigError;
pub use machine::DescentEvent;
pub use machine::DescentMachine;
pub use machine::OptimizerResult;
pub use machine::Outcome;
pub use machine::Phase;
pub use parser::ParserError;
pub use scalar::Scalar;
pub use scalar::TrajectorySample;
