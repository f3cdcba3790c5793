//! Worktree-centred repository management through the `git` binary, without
//! the process: this crate decides which arguments each operation passes and
//! what the exit status and output of the process mean. Starting the process
//! is left to a runner that the caller supplies.
//!
//! - [`argv`]: the argument grammar of each operation.
//! - [`command`]: [`GitCommand`], with one method per operation.
//! - [`outcome`]: what a process returned, and the value made of it.
//! - [`runner`]: what is asked of the caller's runner.
//! - [`error`]: the operations by name and the ways in which one fails.
//! - [`text`]: trimming, decimal parsing and UTF-8 decoding.
//! - [`laws`]: what holds of the grammars and outcomes for all inputs.

pub mod argv;
pub mod command;
pub mod error;
pub mod laws;
pub mod outcome;
pub mod runner;
pub mod text;

pub use command::GitCommand;
pub use error::{GitError, Operation};
pub use outcome::{CommandOutput, Execution, SpawnError};
