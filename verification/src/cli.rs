//! Command-line options.

use std::path::PathBuf;

use vstd::prelude::*;

verus! {

/// The command-line options.
#[derive(Debug, Clone)]
pub struct Cli {
    /// A custom config file, instead of `config.toml` in the configuration
    /// directory.
    pub config: Option<PathBuf>,
    /// A color theme to use and save: default, dracula, nord or gruvbox.
    pub theme: Option<String>,
    /// Verbose debug logging to a file in the configuration directory.
    pub verbose: bool,
}

} // verus!
