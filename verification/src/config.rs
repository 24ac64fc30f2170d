use vstd::prelude::*;

use crate::scheduler::ActionTrigger;

verus! {

/// One fixed daily trigger: a time of day, in seconds since UTC midnight,
/// and the trigger kind fired at that time.
#[derive(Debug, Clone, Copy, PartialEq, Eq, Structural)]
pub struct ManualTimeStamp {
    pub trigger_time: u32,
    pub action: ActionTrigger,
}

impl ManualTimeStamp {
    /// A time of day lies strictly inside one day.
    pub open spec fn wf(self) -> bool {
        self.trigger_time < 86400
    }
}

/// The manual schedule: a list of fixed daily triggers.
#[derive(Debug, PartialEq, Eq)]
pub struct ManualConfig {
    pub time_stamps: Vec<ManualTimeStamp>,
}

impl ManualConfig {
    pub open spec fn wf(self) -> bool {
        forall|i: int| 0 <= i < self.time_stamps@.len() ==> (#[trigger] self.time_stamps@[i]).wf()
    }
}

impl Clone for ManualConfig {
    fn clone(&self) -> (r: Self)
        ensures
            r.time_stamps@ == self.time_stamps@,
    {
        let time_stamps = self.time_stamps.clone();
        proof {
            assert forall|i: int| 0 <= i < time_stamps@.len() implies time_stamps@[i]
                == self.time_stamps@[i] by {
                assert(cloned::<ManualTimeStamp>(self.time_stamps@[i], time_stamps@[i]));
            }
            assert(time_stamps@ =~= self.time_stamps@);
        }
        ManualConfig { time_stamps }
    }
}

/// The automatic schedule: a geographic position. The components are carried
/// twice: in micro-degrees, the plain values the library validates and
/// reports, and as sunrise's validated pair, which the astronomical
/// collaborator consumes. `coords` is `None` when the position was rejected
/// at the boundary (out of range), which scheduler construction surfaces as
/// `InvalidCoordinates`.
#[derive(Debug, Clone, Copy)]
pub struct AutomaticConfig {
    pub latitude_micro: i64,
    pub longitude_micro: i64,
    pub coords: Option<sunrise::Coordinates>,
}

/// Latitude within [-90, 90] degrees and longitude within [-180, 180]
/// degrees, both in micro-degrees.
pub open spec fn coordinates_in_range(latitude_micro: int, longitude_micro: int) -> bool {
    &&& -90_000_000 <= latitude_micro <= 90_000_000
    &&& -180_000_000 <= longitude_micro <= 180_000_000
}

/// Maps each of the four trigger kinds to an optional shell command.
#[derive(Debug, PartialEq, Eq)]
pub struct Actions {
    pub on_sunrise: Option<String>,
    pub on_sunset: Option<String>,
    pub on_dawn: Option<String>,
    pub on_dusk: Option<String>,
}

impl Actions {
    /// The command configured for a trigger kind, if any.
    pub open spec fn get_spec(self, trigger: ActionTrigger) -> Option<String> {
        match trigger {
            ActionTrigger::Sunrise => self.on_sunrise,
            ActionTrigger::Sunset => self.on_sunset,
            ActionTrigger::Dusk => self.on_dusk,
            ActionTrigger::Dawn => self.on_dawn,
        }
    }

    pub fn get(&self, trigger: ActionTrigger) -> (r: Option<String>)
        ensures
            r == self.get_spec(trigger),
    {
        match trigger {
            ActionTrigger::Sunrise => self.on_sunrise.clone(),
            ActionTrigger::Sunset => self.on_sunset.clone(),
            ActionTrigger::Dusk => self.on_dusk.clone(),
            ActionTrigger::Dawn => self.on_dawn.clone(),
        }
    }

    pub fn new(
        on_sunrise: Option<String>,
        on_sunset: Option<String>,
        on_dawn: Option<String>,
        on_dusk: Option<String>,
    ) -> (r: Actions)
        ensures
            r == (Actions { on_sunrise, on_sunset, on_dawn, on_dusk }),
    {
        Actions { on_sunrise, on_sunset, on_dawn, on_dusk }
    }
}

impl Clone for Actions {
    fn clone(&self) -> (r: Self)
        ensures
            r == *self,
    {
        Actions {
            on_sunrise: self.on_sunrise.clone(),
            on_sunset: self.on_sunset.clone(),
            on_dawn: self.on_dawn.clone(),
            on_dusk: self.on_dusk.clone(),
        }
    }
}

impl Default for Actions {
    /// No command configured for any trigger kind.
    fn default() -> (r: Self)
        ensures
            r == (Actions {
                on_sunrise: None,
                on_sunset: None,
                on_dawn: None,
                on_dusk: None,
            }),
    {
        Actions { on_sunrise: None, on_sunset: None, on_dawn: None, on_dusk: None }
    }
}

/// The whole configuration of the daemon. At most one of `manual` and
/// `automatic` drives scheduling (automatic wins when both are present);
/// when both are absent, scheduler construction fails with
/// `InvalidConfiguration` while the daemon itself keeps running.
#[derive(Debug)]
pub struct Configuration {
    pub enabled: bool,
    pub manual: Option<ManualConfig>,
    pub automatic: Option<AutomaticConfig>,
    pub actions: Actions,
    pub hot_reload: bool,
}

impl Configuration {
    pub open spec fn wf(self) -> bool {
        self.manual is Some ==> self.manual.unwrap().wf()
    }
}

/// Two configurations that agree on every field; the manual schedules are
/// compared element by element.
pub open spec fn same_config(a: Configuration, b: Configuration) -> bool {
    &&& a.enabled == b.enabled
    &&& a.automatic == b.automatic
    &&& a.actions == b.actions
    &&& a.hot_reload == b.hot_reload
    &&& a.manual is Some <==> b.manual is Some
    &&& (a.manual is Some ==> a.manual.unwrap().time_stamps@ == b.manual.unwrap().time_stamps@)
}

impl Clone for Configuration {
    fn clone(&self) -> (r: Self)
        ensures
            same_config(r, *self),
    {
        Configuration {
            enabled: self.enabled,
            manual: match &self.manual {
                Some(m) => Some(m.clone()),
                None => None,
            },
            automatic: self.automatic,
            actions: self.actions.clone(),
            hot_reload: self.hot_reload,
        }
    }
}

impl Default for Configuration {
    /// Enabled, with an empty manual schedule, no automatic schedule, no
    /// actions and no hot reload.
    fn default() -> (r: Self)
        ensures
            r.enabled,
            r.manual is Some && r.manual.unwrap().time_stamps@.len() == 0,
            r.automatic is None,
            r.actions == (Actions {
                on_sunrise: None,
                on_sunset: None,
                on_dawn: None,
                on_dusk: None,
            }),
            !r.hot_reload,
            r.wf(),
    {
        Configuration {
            enabled: true,
            manual: Some(ManualConfig { time_stamps: Vec::new() }),
            automatic: None,
            actions: Actions::default(),
            hot_reload: false,
        }
    }
}

} // verus!
