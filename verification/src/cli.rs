//! What the command line asks for.

use vstd::prelude::*;

verus! {

/// A parsed command line.
#[derive(Debug, PartialEq, Eq)]
pub struct Cli {
    pub command: Commands,
}

/// The commands.
#[allow(inconsistent_fields)]
#[derive(Debug, PartialEq, Eq)]
pub enum Commands {
    /// Create a new bare repository.
    New {
        /// The name of the repository.
        repo_name: String,
        /// The name of the host profile.
        profile_name: Option<String>,
        /// The path of the SSH key.
        ssh_key: Option<String>,
        /// The base directory.
        base_dir: Option<String>,
        /// The default branch.
        default_branch: Option<String>,
    },
    /// Run the configuration wizard.
    Configure,
    /// List all configured host profiles.
    ListHosts,
    /// Delete a configured host profile.
    DeleteHost {
        /// The name of the profile to delete.
        profile_name: String,
    },
}

} // verus!
