use vstd::prelude::*;

use crate::config::{coordinates_in_range, Configuration};
use crate::error::Error;
use crate::info::{EventInfo, InfoGatherer};
use crate::scheduler::{
    manual_next_spec, EventSource, LocationInfo, Scheduler, SourceKind, TriggerSource,
};
use crate::solar::valid_instant;
use crate::state::AppState;
use crate::{Args, Commands};

verus! {

/// A trigger source can be built from this configuration: the automatic
/// schedule is present with an accepted position, or no automatic schedule
/// but a manual one.
pub open spec fn config_source_ok(c: Configuration) -> bool {
    match c.automatic {
        Some(a) => coordinates_in_range(a.latitude_micro as int, a.longitude_micro as int)
            && a.coords is Some,
        None => c.manual is Some,
    }
}

/// The error scheduler construction fails with, where it fails.
pub open spec fn config_source_err(c: Configuration) -> Error {
    match c.automatic {
        Some(a) => Error::InvalidCoordinates(a.latitude_micro, a.longitude_micro),
        None => Error::InvalidConfiguration,
    }
}

/// The next event the source built from this configuration reports at `now`;
/// meaningful where `config_source_ok` holds.
pub open spec fn config_next_event(c: Configuration, now: int) -> Option<EventInfo> {
    match c.automatic {
        Some(a) => (Scheduler {
            actions: c.actions,
            trigger: LocationInfo {
                coords: a.coords.unwrap(),
                latitude_micro: a.latitude_micro,
                longitude_micro: a.longitude_micro,
            },
        }).next_event_spec(now),
        None => match manual_next_spec(c.manual.unwrap().time_stamps@, now) {
            None => None,
            Some((k, t)) => Some(
                EventInfo { at: t as i64, trigger: k, action: c.actions.get_spec(k) },
            ),
        },
    }
}

/// The configuration in force and the path it was loaded from.
pub struct Context {
    pub config: Configuration,
    pub config_path: String,
}

impl Context {
    pub fn create_from_config(config: Configuration, config_path: String) -> (r: Self)
        ensures
            r.config == config,
            r.config_path == config_path,
    {
        Context { config, config_path }
    }

    /// Builds a trigger source from the configuration and reports the next
    /// pending event at `now`; fails exactly where scheduler construction
    /// fails.
    pub fn gather_info(&self, now: i64) -> (r: Result<InfoGatherer, Error>)
        requires
            self.config.wf(),
            valid_instant(now as int),
        ensures
            r is Ok <==> config_source_ok(self.config),
            r is Ok ==> r.unwrap().next_event_at == config_next_event(
                self.config,
                now as int,
            ),
            r is Err ==> r == Err::<InfoGatherer, Error>(config_source_err(self.config)),
    {
        match TriggerSource::from_config(&self.config) {
            Ok(ts) => {
                let next_event_at = ts.next_event_at(now);
                proof {
                    match self.config.automatic {
                        Some(a) => {
                            assert(ts.next_event_spec(now as int) == config_next_event(
                                self.config,
                                now as int,
                            ));
                        },
                        None => {
                            assert(ts.next_event_spec(now as int) == config_next_event(
                                self.config,
                                now as int,
                            ));
                        },
                    }
                }
                Ok(InfoGatherer::new(next_event_at))
            },
            Err(e) => Err(e),
        }
    }

    /// Decides what this invocation becomes: `Start` runs the daemon,
    /// `PrintDefaultConfig` prints the defaults, and no subcommand reports
    /// the next pending event at `now`. Only the report consults the
    /// configuration, and it fails exactly where scheduler construction
    /// fails.
    pub fn create_execution_state(&self, args: &Args, now: i64) -> (r: Result<AppState, Error>)
        requires
            self.config.wf(),
            valid_instant(now as int),
        ensures
            args.command == Some(Commands::Start) ==> r == Ok::<AppState, Error>(
                AppState::Daemon,
            ),
            args.command == Some(Commands::PrintDefaultConfig) ==> r == Ok::<AppState, Error>(
                AppState::DefaultConfig,
            ),
            args.command is None ==> {
                &&& (r is Ok <==> config_source_ok(self.config))
                &&& (r is Ok ==> (r.unwrap() matches AppState::Info(g) && g.next_event_at
                    == config_next_event(self.config, now as int)))
                &&& (r is Err ==> r == Err::<AppState, Error>(config_source_err(self.config)))
            },
    {
        match &args.command {
            Some(c) => match c {
                Commands::Start => Ok(AppState::Daemon),
                Commands::PrintDefaultConfig => Ok(AppState::DefaultConfig),
            },
            None => match self.gather_info(now) {
                Ok(info) => Ok(AppState::Info(info)),
                Err(e) => Err(e),
            },
        }
    }
}

} // verus!
