use vstd::prelude::*;

use crate::scheduler::ActionTrigger;

verus! {

/// A pending event: its instant (Unix seconds, UTC), its trigger kind and
/// the command configured for that kind, if any.
#[derive(Debug, PartialEq, Eq)]
pub struct EventInfo {
    pub at: i64,
    pub trigger: ActionTrigger,
    pub action: Option<String>,
}

/// What a status query reports: the next pending event, when a scheduler
/// could be built from the configuration.
#[derive(Debug, PartialEq, Eq)]
pub struct InfoGatherer {
    pub next_event_at: Option<EventInfo>,
}

impl InfoGatherer {
    pub fn new(next_event_at: Option<EventInfo>) -> (r: Self)
        ensures
            r.next_event_at == next_event_at,
    {
        InfoGatherer { next_event_at }
    }
}

} // verus!
