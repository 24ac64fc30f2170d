use vstd::prelude::*;

verus! {

/// One serialized input to the control loop, whatever its producer: the
/// command listener, the scheduling thread, the file watcher or the signal
/// handler.
#[derive(Debug, Clone, PartialEq, Eq)]
pub enum Action {
    Stop,
    Enable,
    Disable,
    Toggle,
    ReloadConfig,
    Trigger { action: String },
    Nothing,
}

} // verus!
