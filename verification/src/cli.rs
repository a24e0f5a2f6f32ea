//! The command line: global options and the subcommands.
use vstd::prelude::*;

verus! {

/// Tidepool GVM - A high-performance Go Version Manager
#[derive(Debug, Clone)]
pub struct Cli {
    /// Verbose mode
    pub verbose: bool,
    /// Quiet mode (only output errors)
    pub quiet: bool,
    pub command: Commands,
}

/// The subcommands.
#[derive(Debug, Clone)]
pub enum Commands {
    /// Install a specific Go version
    Install { version: String, force: bool },
    /// Switch to a specific Go version
    Use { version: String, global: bool },
    /// Uninstall a specific Go version
    Uninstall { version: String },
    /// List Go versions
    List { all: bool },
    /// Show the current Go version status
    Status,
    /// Show detailed information about a Go version
    Info { version: String },
}

} // verus!
