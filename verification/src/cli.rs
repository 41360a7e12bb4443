//! The command line as values: the subcommands and the two global flags.

use crate::{DepsAction, GpgAction, ToolchainAction};
use vstd::prelude::*;

verus! {

/// One invocation of the program.
#[derive(Debug, PartialEq)]
pub struct Cli {
    pub command: Commands,
    /// Output as one structured document.
    pub json: bool,
    /// Verbose logging.
    pub verbose: bool,
}

/// The subcommands.
#[allow(inconsistent_fields)]
#[derive(Debug, PartialEq)]
pub enum Commands {
    /// Run the formatter check, the linter and the compiler check in sequence.
    Check,
    /// Build with timing and size summaries.
    Build,
    /// Diagnose the environment.
    Doctor,
    /// Show the environment.
    Env,
    /// Show project metadata and repository status.
    Info,
    /// List the development tools that are installed.
    Tools,
    /// Manage toolchains.
    Toolchain { action: ToolchainAction },
    /// Start a new project from a template.
    Init { name: Option<String>, template: Option<String>, list_templates: bool },
    /// Analyze dependencies.
    Deps { action: DepsAction },
    /// Sign and verify.
    Gpg { action: GpgAction },
}

} // verus!
