use vstd::prelude::*;

use crate::info::InfoGatherer;

verus! {

/// What one invocation of the program is to become: the long-running daemon,
/// a one-shot report of the next pending event, or printing the default
/// configuration. The daemon's runtime resources live outside this core and
/// are built where the `Daemon` state is acted on.
#[derive(Debug, PartialEq, Eq)]
pub enum AppState {
    Daemon,
    Info(InfoGatherer),
    DefaultConfig,
}

} // verus!
