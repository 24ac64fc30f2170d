use vstd::prelude::*;

use crate::actions::Action;
use crate::config::Configuration;

verus! {

/// What the control loop asks its surroundings to do after a command has
/// been applied to the daemon state: nothing, re-read the configuration, or
/// spawn the given shell command.
#[derive(Debug, Clone, PartialEq, Eq)]
pub enum Effect {
    Nothing,
    Reload,
    Run { command: String },
}

/// The configuration with only the enabled flag changed.
pub open spec fn with_enabled(c: Configuration, enabled: bool) -> Configuration {
    Configuration { enabled, ..c }
}

/// Applies one control-loop command to the daemon state and names the outside
/// work it entails. `Stop` never reaches this point: it ends the loop at the
/// receive site, and the scheduling subsystem never produces it.
///
/// A `Trigger` runs its command only while the daemon is enabled; when
/// disabled it is applied without any effect, so toggling commutes with
/// scheduling.
pub fn handle_command(command: Action, config: &mut Configuration) -> (e: Effect)
    requires
        !(command is Stop),
    ensures
        command is Enable ==> *final(config) == with_enabled(*old(config), true) && e
            is Nothing,
        command is Disable ==> *final(config) == with_enabled(*old(config), false) && e
            is Nothing,
        command is Toggle ==> *final(config) == with_enabled(
            *old(config),
            !old(config).enabled,
        ) && e is Nothing,
        command is ReloadConfig ==> *final(config) == *old(config) && e is Reload,
        command is Nothing ==> *final(config) == *old(config) && e is Nothing,
        (command matches Action::Trigger { action } ==> *final(config) == *old(config) && e == (
        if old(config).enabled {
            Effect::Run { command: action }
        } else {
            Effect::Nothing
        })),
        !old(config).enabled ==> !(e is Run),
{
    match command {
        Action::Stop => {
            proof {
                assert(false);
            }
            Effect::Nothing
        },
        Action::Enable => {
            config.enabled = true;
            Effect::Nothing
        },
        Action::Disable => {
            config.enabled = false;
            Effect::Nothing
        },
        Action::Toggle => {
            config.enabled = !config.enabled;
            Effect::Nothing
        },
        Action::ReloadConfig => Effect::Reload,
        Action::Trigger { action } => {
            if config.enabled {
                Effect::Run { command: action }
            } else {
                Effect::Nothing
            }
        },
        Action::Nothing => Effect::Nothing,
    }
}

/// How the hot-reload watch handle is reconciled after a configuration
/// change: started when hot reload is newly asked for and no watch is
/// active, dropped when hot reload is off and one is active, kept otherwise.
#[derive(Debug, Clone, Copy, PartialEq, Eq, Structural)]
pub enum WatchDirective {
    Start,
    Drop,
    Keep,
}

pub open spec fn reconcile_watch_spec(hot_reload: bool, watch_active: bool) -> WatchDirective {
    if hot_reload && !watch_active {
        WatchDirective::Start
    } else if !hot_reload && watch_active {
        WatchDirective::Drop
    } else {
        WatchDirective::Keep
    }
}

/// The watch handle mirrors the hot-reload flag: whatever it was before,
/// following the directive leaves a watch active exactly when hot reload is
/// asked for.
pub proof fn lemma_watch_mirrors_hot_reload(hot_reload: bool, watch_active: bool)
    ensures
        (match reconcile_watch_spec(hot_reload, watch_active) {
            WatchDirective::Start => true,
            WatchDirective::Drop => false,
            WatchDirective::Keep => watch_active,
        }) == hot_reload,
{
}

/// Replaces the configuration wholesale — never a partial merge of old and
/// new — and says how the watch handle must be reconciled against the new
/// hot-reload flag.
pub fn apply_reload(
    config: &mut Configuration,
    new_config: Configuration,
    watch_active: bool,
) -> (d: WatchDirective)
    ensures
        *final(config) == new_config,
        d == reconcile_watch_spec(new_config.hot_reload, watch_active),
{
    *config = new_config;
    if config.hot_reload && !watch_active {
        WatchDirective::Start
    } else if !config.hot_reload && watch_active {
        WatchDirective::Drop
    } else {
        WatchDirective::Keep
    }
}

/// The absolute distance between two instants.
pub open spec fn instant_distance(a: int, b: int) -> int {
    if a >= b {
        a - b
    } else {
        b - a
    }
}

/// The polling policy of the scheduling thread, in seconds of sleep: with no
/// target there is nothing to watch closely, so the default idle pause; a
/// target within the 10-second tolerance band is checked every iteration
/// without sleeping; one farther than 30 seconds away allows a short pause;
/// in between, the default idle pause still detects the window in time.
pub open spec fn poll_delay_spec(now: int, target: Option<i64>) -> u64 {
    match target {
        None => 25u64,
        Some(at) => {
            let d = instant_distance(at as int, now);
            if d < 10 {
                0u64
            } else if d > 30 {
                10u64
            } else {
                25u64
            }
        },
    }
}

/// Computes how long the scheduling thread may sleep before its next poll.
pub fn poll_delay(now: i64, target: Option<i64>) -> (r: u64)
    ensures
        r == poll_delay_spec(now as int, target),
{
    match target {
        None => 25,
        Some(at) => {
            let wide: i128 = at as i128 - now as i128;
            let d: i128 = if wide >= 0 {
                wide
            } else {
                -wide
            };
            if d < 10 {
                0
            } else if d > 30 {
                10
            } else {
                25
            }
        },
    }
}

} // verus!
