//! The command line, after parsing.
use vstd::prelude::*;

verus! {

/// Subcommands of the command line.
#[derive(Clone, Copy, Debug, PartialEq, Eq, Structural)]
pub enum Command {
    /// Print session statistics and exit.
    Stats,
}

/// Command-line arguments, after parsing.
#[derive(Clone, Copy, Debug, PartialEq, Eq, Structural)]
pub struct Args {
    pub command: Option<Command>,
    /// Work session length.
    pub work: Option<u128>,
    /// Short break length.
    pub short_break: Option<u128>,
    /// Long break length.
    pub long_break: Option<u128>,
    /// Work sessions before a long break.
    pub sessions: Option<u32>,
    /// Disable desktop notifications.
    pub no_notify: bool,
    /// Disable the full-screen alert between sessions.
    pub no_alert: bool,
}

impl Args {
    /// No option given on the command line.
    pub open spec fn none_given(self) -> bool {
        &&& self.work is None
        &&& self.short_break is None
        &&& self.long_break is None
        &&& self.sessions is None
        &&& !self.no_notify
        &&& !self.no_alert
    }
}

} // verus!
