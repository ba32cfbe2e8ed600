//! The command line as it was parsed.

use vstd::prelude::*;
use std::path::PathBuf;

verus! {

/// The invocation: a command and the two global switches.
#[derive(Debug)]
pub struct Cli {
    pub command: Commands,
    pub verbose: bool,
    pub quiet: bool,
}

/// The commands.
#[derive(Debug)]
pub enum Commands {
    /// Authenticate using a profile.
    Login {
        profile: Option<String>,
        port: Option<u16>,
        copy: bool,
        json: bool,
        output: Option<PathBuf>,
    },
    /// List all profiles.
    List,
    /// Create a profile.
    Create {
        name: String,
        client_id: Option<String>,
        client_secret: Option<String>,
        redirect_uri: Option<String>,
        scope: Option<String>,
        discovery_uri: Option<String>,
        auth_endpoint: Option<String>,
        token_endpoint: Option<String>,
        non_interactive: bool,
    },
    /// Edit a profile.
    Edit { name: String },
    /// Delete a profile.
    Delete { name: String, force: bool },
    /// Rename a profile.
    Rename { old_name: String, new_name: String },
    /// Export profiles to a file.
    Export { file: PathBuf, profiles: Vec<String> },
    /// Import profiles from a file.
    Import { file: PathBuf, overwrite: bool },
}

impl Cli {
    /// Whether to report details: asked for, and not silenced.
    pub fn is_verbose(&self) -> (r: bool)
        ensures
            r == (self.verbose && !self.quiet),
    {
        self.verbose && !self.quiet
    }

    /// Whether to print results only.
    pub fn is_quiet(&self) -> (r: bool)
        ensures
            r == self.quiet,
    {
        self.quiet
    }
}

} // verus!
