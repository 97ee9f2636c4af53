//! How much the user wants to hear about the git commands that a workflow runs.
use vstd::prelude::*;

verus! {

/// What commands to display during workflow execution.
#[derive(Clone, Copy, Debug, PartialEq, Eq, Structural)]
pub enum SignificanceVerbosity {
    /// Only slow or otherwise important commands will be displayed.
    OnlyNotable,
    /// All commands will be displayed.
    All,
}

/// How much output to display about invoked commands.
#[derive(Clone, Copy, Debug, PartialEq, Eq, Structural)]
pub enum CommandVerbosity {
    /// Show a pretty spinner with a description.
    Spinner,
    /// Only print out the command line invocation (binary and arguments).
    Invocation,
    /// Prints what [`Self::Invocation`] would print and also any `stdout`/`stderr` produced.
    InvocationAndOutput,
}

/// Responsible for timely communication of program state to the user.
#[derive(Clone, Copy, Debug, PartialEq, Eq, Structural)]
pub struct Verbosity {
    /// Show an internal representation of the workflow about to be invoked.
    pub display_workflow: bool,
    /// Show the version information for debugging.
    pub display_version: bool,
    /// Which commands to display.
    pub significance: SignificanceVerbosity,
    /// How to display a command.
    pub command: CommandVerbosity,
}

impl Verbosity {
    /// Every day usage: spinners for notable commands only.
    pub open spec fn spec_standard() -> Verbosity {
        Verbosity {
            display_workflow: false,
            display_version: false,
            significance: SignificanceVerbosity::OnlyNotable,
            command: CommandVerbosity::Spinner,
        }
    }

    /// The workflow, and every command line as it runs.
    pub open spec fn spec_verbose() -> Verbosity {
        Verbosity {
            display_workflow: true,
            display_version: false,
            significance: SignificanceVerbosity::All,
            command: CommandVerbosity::Invocation,
        }
    }

    /// Everything: version, workflow, every command line and its output.
    pub open spec fn spec_max() -> Verbosity {
        Verbosity {
            display_workflow: true,
            display_version: true,
            significance: SignificanceVerbosity::All,
            command: CommandVerbosity::InvocationAndOutput,
        }
    }

    /// Every day usage: spinners for notable commands only.
    pub fn standard() -> (r: Verbosity)
        ensures
            r == Verbosity::spec_standard(),
    {
        Verbosity {
            display_workflow: false,
            display_version: false,
            significance: SignificanceVerbosity::OnlyNotable,
            command: CommandVerbosity::Spinner,
        }
    }

    /// The workflow, and every command line as it runs.
    pub fn verbose() -> (r: Verbosity)
        ensures
            r == Verbosity::spec_verbose(),
    {
        Verbosity {
            display_workflow: true,
            display_version: false,
            significance: SignificanceVerbosity::All,
            command: CommandVerbosity::Invocation,
        }
    }

    /// Everything: version, workflow, every command line and its output.
    pub fn max() -> (r: Verbosity)
        ensures
            r == Verbosity::spec_max(),
    {
        Verbosity {
            display_workflow: true,
            display_version: true,
            significance: SignificanceVerbosity::All,
            command: CommandVerbosity::InvocationAndOutput,
        }
    }
}

impl Default for Verbosity {
    fn default() -> (r: Verbosity)
        ensures
            r == Verbosity::spec_standard(),
    {
        Verbosity::standard()
    }
}

/// Output is allowed unless the user asked for quiet, which is no verbosity at all.
pub fn is_output_allowed(verbosity: Option<Verbosity>) -> (r: bool)
    ensures
        r == verbosity is Some,
{
    verbosity.is_some()
}

/// How a command is displayed while it runs, or `None` when it runs silently: quiet runs
/// everything silently, and a command that is not notable is displayed only when all commands
/// are to be.
pub fn command_display(verbosity: Option<Verbosity>, notable: bool) -> (r: Option<CommandVerbosity>)
    ensures
        r == match verbosity {
            None => None,
            Some(v) => if notable || v.significance == SignificanceVerbosity::All {
                Some(v.command)
            } else {
                None
            },
        },
{
    match verbosity {
        None => None,
        Some(v) => {
            if notable {
                Some(v.command)
            } else {
                match v.significance {
                    SignificanceVerbosity::OnlyNotable => None,
                    SignificanceVerbosity::All => Some(v.command),
                }
            }
        },
    }
}

} // verus!
