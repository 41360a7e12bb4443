//! A wrapper around the tools of a Rust developer: what to run, how to read
//! what the tools print, and how to report it to a reader or as a record.

use vstd::prelude::*;

pub mod cli;
pub mod commands;
pub mod config;
pub mod document;
pub mod json;
pub mod lines;
pub mod manifest;
pub mod process;
pub mod report;
pub mod text;
pub mod utils;

verus! {

/// What to do with toolchains.
#[derive(Debug, PartialEq)]
pub enum ToolchainAction {
    /// List the installed toolchains.
    List,
    /// Install a toolchain.
    Install { toolchain: String },
    /// Make a toolchain the default.
    Default { toolchain: String },
    /// Show the active toolchain.
    Show,
    /// Remove a toolchain.
    Remove { toolchain: String },
}

/// What to find out about the dependencies.
#[derive(Debug, PartialEq)]
pub enum DepsAction {
    /// The dependency tree.
    Tree,
    /// Dependencies with newer versions.
    Outdated,
    /// Known security issues.
    Audit,
    /// Licenses of the dependencies.
    Licenses,
    /// What each dependency adds to the binary.
    Size,
}

/// What to sign or verify.
#[derive(Debug, PartialEq)]
pub enum GpgAction {
    /// Sign the last commit, the latest tag, or a file.
    Sign { target: String },
    /// Verify commits, tags, or the signature of a file.
    Verify { target: String },
    /// Check the signing setup.
    Setup,
}

} // verus!
