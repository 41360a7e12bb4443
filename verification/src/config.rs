//! The settings that a user may keep in a configuration file. A file that
//! is absent stands for the defaults.

use std::path::PathBuf;
use vstd::prelude::*;

verus! {

/// `std::path::PathBuf`, an owned path. It is carried, never read.
#[verifier::external_type_specification]
#[verifier::external_body]
pub struct ExPathBuf(PathBuf);

/// All settings.
#[derive(Debug)]
pub struct Config {
    pub tools: ToolsConfig,
    pub build: BuildConfig,
    pub output: OutputConfig,
}

/// Tools beyond the built-in list, and where to look for them.
#[derive(Debug)]
pub struct ToolsConfig {
    pub custom_tools: Vec<String>,
    pub check_paths: Vec<PathBuf>,
}

/// How a build behaves.
#[derive(Debug)]
pub struct BuildConfig {
    pub release_by_default: bool,
    pub show_warnings: bool,
    pub target_dir: Option<PathBuf>,
}

/// How results are shown.
#[derive(Debug)]
pub struct OutputConfig {
    pub json_by_default: bool,
    pub color: bool,
}

impl Default for ToolsConfig {
    fn default() -> (r: ToolsConfig)
        ensures
            r.custom_tools@.len() == 0,
            r.check_paths@.len() == 0,
    {
        ToolsConfig { custom_tools: Vec::new(), check_paths: Vec::new() }
    }
}

impl Default for BuildConfig {
    fn default() -> (r: BuildConfig)
        ensures
            !r.release_by_default,
            !r.show_warnings,
            r.target_dir is None,
    {
        BuildConfig { release_by_default: false, show_warnings: false, target_dir: None }
    }
}

impl Default for OutputConfig {
    fn default() -> (r: OutputConfig)
        ensures
            !r.json_by_default,
            !r.color,
    {
        OutputConfig { json_by_default: false, color: false }
    }
}

impl Config {
    /// Whether every setting has its default: no tools, no paths, every flag
    /// off, no target directory.
    pub open spec fn is_default(self) -> bool {
        &&& self.tools.custom_tools@.len() == 0
        &&& self.tools.check_paths@.len() == 0
        &&& !self.build.release_by_default
        &&& !self.build.show_warnings
        &&& self.build.target_dir is None
        &&& !self.output.json_by_default
        &&& !self.output.color
    }
}

impl Default for Config {
    fn default() -> (r: Config)
        ensures
            r.is_default(),
    {
        Config {
            tools: ToolsConfig::default(),
            build: BuildConfig::default(),
            output: OutputConfig::default(),
        }
    }
}

} // verus!
