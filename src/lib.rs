//! Synchronize git branches across multiple clones of one user through a shared remote.
pub mod config;
pub mod filter;
pub mod git_binary;
pub mod git_ref;
pub mod line_arity;
pub mod namespace;
pub mod options;
pub mod output;
pub mod progress;
pub mod snapshot;
pub mod text;
pub mod types;
pub mod verbosity;
pub mod workflow;
