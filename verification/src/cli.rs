//! The command-line surface of the tool, as plain data.  Flag parsing
//! itself lives outside the library; these types carry what it
//! produces.

use vstd::prelude::*;

use crate::matrix::{BuildTool, Language, PackageManager, ProjectLayer};

verus! {

/// The subcommands the tool offers.
#[derive(Debug, Clone, PartialEq)]
pub enum Commands {
    /// Scaffold a new project; every dimension not given is asked for.
    Create {
        name: Option<String>,
        layer: Option<ProjectLayer>,
        framework: Option<String>,
        build_tool: Option<BuildTool>,
        language: Option<Language>,
        platform: Option<String>,
        package_manager: Option<PackageManager>,
    },
}

/// A parsed invocation.
#[derive(Debug, Clone, PartialEq)]
pub struct Cli {
    pub command: Commands,
}

} // verus!
