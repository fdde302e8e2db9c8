//! The command line: global flags and subcommands.
use vstd::prelude::*;

verus! {

/// The parsed command line.
#[derive(Debug, Clone, PartialEq)]
pub struct Cli {
    /// Enable JSON output.
    pub json: bool,
    /// Show all processes including system apps.
    pub all: bool,
    /// Disable colored output.
    pub no_color: bool,
    /// Suppress progress indicators.
    pub quiet: bool,
    /// Use ASCII-only output (no Unicode symbols).
    pub ascii: bool,
    /// Show detailed output with full descriptions (no truncation).
    pub verbose: bool,
    pub command: Option<Commands>,
}

/// The subcommands.
#[derive(Debug, Clone, PartialEq)]
pub enum Commands {
    /// List all listening ports (default command).
    List,
    /// Show detailed information about a specific port.
    Details { port: u16, no_prompt: bool },
    /// Kill processes by port or PID.
    Kill { targets: Vec<String>, force: bool },
    /// Find and kill orphaned processes (dry run unless `execute`).
    Clean { execute: bool },
    /// List all dev processes (not just port-bound).
    Ps,
    /// Watch for port changes, scanning every `interval` seconds.
    Watch { interval: u64 },
    /// Manage configuration.
    Config { action: ConfigAction },
}

/// The configuration subcommands.
#[derive(Debug, Clone, Copy, PartialEq, Eq, Structural)]
pub enum ConfigAction {
    /// Initialize default config file.
    Init,
    /// Show config file path.
    Path,
    /// Reset config to defaults.
    Reset,
}

impl Cli {
    /// The subcommand to run: listing ports when none is given.
    pub fn command_or_list(self) -> (r: Commands)
        ensures
            match self.command {
                Some(c) => r == c,
                None => r == Commands::List,
            },
    {
        match self.command {
            None => Commands::List,
            Some(c) => c,
        }
    }
}

/// Progress indicators are shown unless the output is JSON or quiet.
pub fn progress_visible(json_mode: bool, quiet: bool) -> (r: bool)
    ensures
        r == (!json_mode && !quiet),
{
    !json_mode && !quiet
}

/// A progress bar over `total` steps is shown when progress is visible and
/// there is at least one step.
pub fn counter_visible(total: usize, json_mode: bool, quiet: bool) -> (r: bool)
    ensures
        r == (!json_mode && !quiet && total > 0),
{
    progress_visible(json_mode, quiet) && total > 0
}

} // verus!
