//! A compact description of how to report progress: silent, standard with a significance
//! threshold for spinners, or verbose.
use vstd::prelude::*;

verus! {

/// Significance of the command being run to the overall workflow.
#[derive(Clone, Copy, Debug, PartialEq, Eq, Structural)]
pub enum Run {
    /// An insignificant command that requires additional `--verbose` flags to be visible.
    Trivial,
    /// A slow or otherwise important command to communicate to the user.
    Notable,
}

/// How verbose `--verbose` should be.
#[derive(Clone, Copy, Debug, PartialEq, Eq, Structural)]
pub enum Verbosity {
    /// Prints the command and arguments as it executes them.
    CommandOnly,
    /// Prints what [`Self::CommandOnly`] would print and also any `stdout`/`stderr` produced.
    CommandAndOutput,
}

/// Responsible for timely communication of program state to the user.
#[derive(Clone, Copy, Debug, PartialEq, Eq, Structural)]
pub enum Progress {
    /// No progress messages whatsoever, the user only cares about the exit code.
    Silent,
    /// Every day usage: spinners for the commands at least as significant as specified.
    Standard {
        /// Skips displaying commands with [`Run`] values below this one.
        significance_at_least: Run,
    },
    /// Debug usage. Prints increasing amounts of information about subcommands.
    Verbose(Verbosity),
}

/// The rank of a significance: trivial below notable.
pub open spec fn run_rank(r: Run) -> int {
    match r {
        Run::Trivial => 0,
        Run::Notable => 1,
    }
}

impl Progress {
    /// Should the workflow print completion messages?
    pub fn is_output_allowed(&self) -> (r: bool)
        ensures
            r == !(self is Silent),
    {
        match self {
            Progress::Silent => false,
            Progress::Standard { .. } => true,
            Progress::Verbose(_) => true,
        }
    }

    /// Whether a spinner is shown while a command of the given significance runs: only in
    /// standard mode, and only for commands at least as significant as asked for.
    pub fn shows_spinner(&self, significance: Run) -> (r: bool)
        ensures
            r == match self {
                Progress::Standard { significance_at_least } => run_rank(significance) >= run_rank(
                    *significance_at_least,
                ),
                _ => false,
            },
    {
        match self {
            Progress::Standard { significance_at_least } => match (significance, significance_at_least) {
                (Run::Trivial, Run::Notable) => false,
                _ => true,
            },
            _ => false,
        }
    }
}

} // verus!
