pub mod actions;
pub mod config;
pub mod context;
pub mod daemon;
pub mod error;
pub mod info;
pub mod scheduler;
pub mod solar;
pub mod state;

use vstd::prelude::*;

verus! {

/// The command-line surface of the program: an optional subcommand and the
/// path of the configuration file.
pub struct Args {
    pub command: Option<Commands>,
    pub config: String,
}

/// The two subcommands: run the daemon, or print the default configuration.
/// With no subcommand the program reports the next pending event.
#[derive(Debug, Copy, Clone, PartialEq, Eq, Structural)]
pub enum Commands {
    Start,
    PrintDefaultConfig,
}

} // verus!
