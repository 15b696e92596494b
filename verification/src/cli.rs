//! The command line: subcommands and their flags. Argument parsing is the
//! caller's; these are the values it produces.

use vstd::prelude::*;

verus! {

/// The parsed command line.
#[derive(Debug)]
pub struct Cli {
    /// Policy file to read (default: the platform config dir).
    pub config: Option<String>,
    pub cmd: Cmd,
}

/// The subcommands.
#[derive(Debug, Clone, Copy, PartialEq, Eq, Structural)]
pub enum Cmd {
    /// Show what would be cleaned and why; never deletes.
    Scan { json: bool, verbose: bool },
    /// Apply the policy: guarded deletion, cache eviction, pending reaper.
    Run { dry_run: bool },
    /// Show the last run's report.
    Status,
    /// Print the effective policy; `init` writes the annotated default file.
    Config { init: bool },
}

} // verus!
