use vstd::prelude::*;

use crate::config::{coordinates_in_range, Actions, Configuration, ManualTimeStamp};
use crate::error::Error;
use crate::info::EventInfo;
use crate::solar::{
    day_start, day_start_at, solar_event_time, solar_event_ts, time_of_day, time_of_day_at,
    valid_instant,
};

verus! {

/// The four solar-cycle boundary labels; each names both an interval of the
/// civil-twilight day and the event that opens it.
#[derive(Debug, Copy, Clone, PartialEq, Eq, Structural, PartialOrd, Ord, Hash)]
pub enum ActionTrigger {
    Sunrise,
    Sunset,
    Dusk,
    Dawn,
}

impl ActionTrigger {
    /// The cyclic successor in the civil-twilight cycle:
    /// Sunrise -> Sunset -> Dusk -> Dawn -> Sunrise.
    pub open spec fn next_spec(self) -> ActionTrigger {
        match self {
            ActionTrigger::Sunrise => ActionTrigger::Sunset,
            ActionTrigger::Sunset => ActionTrigger::Dusk,
            ActionTrigger::Dusk => ActionTrigger::Dawn,
            ActionTrigger::Dawn => ActionTrigger::Sunrise,
        }
    }

    pub fn next(self) -> (r: ActionTrigger)
        ensures
            r == self.next_spec(),
    {
        match self {
            ActionTrigger::Sunrise => ActionTrigger::Sunset,
            ActionTrigger::Sunset => ActionTrigger::Dusk,
            ActionTrigger::Dusk => ActionTrigger::Dawn,
            ActionTrigger::Dawn => ActionTrigger::Sunrise,
        }
    }
}

/// The cyclic successor law: following the successor four times returns to
/// the starting label, and one step never stays in place.
pub proof fn lemma_successor_cycle(k: ActionTrigger)
    ensures
        k.next_spec().next_spec().next_spec().next_spec() == k,
        k.next_spec() != k,
{
}

/// The six civil-twilight boundaries relevant to one query instant: the dusk
/// of the previous day, the four boundaries of the day itself, and the dawn
/// of the next day.
#[derive(Debug, Copy, Clone, PartialEq, Eq, Structural)]
pub struct DayBounds {
    pub yesterday_dusk: i64,
    pub dawn: i64,
    pub sunrise: i64,
    pub sunset: i64,
    pub dusk: i64,
    pub tomorrow_dawn: i64,
}

/// The boundaries in their natural order: the previous dusk before today's
/// dawn, the four boundaries of the day in order, and the next dawn after
/// today's dusk.
pub open spec fn bounds_ordered(b: DayBounds) -> bool {
    &&& b.yesterday_dusk < b.dawn
    &&& b.dawn <= b.sunrise
    &&& b.sunrise <= b.sunset
    &&& b.sunset <= b.dusk
    &&& b.dusk < b.tomorrow_dawn
}

/// The half-open interval [start, end) that contains the query instant;
/// `event` is the kind whose boundary opened the interval.
#[derive(Debug, Copy, Clone, PartialEq, Eq, Structural)]
pub struct Interval {
    pub start: i64,
    pub end: i64,
    pub event: ActionTrigger,
}

impl Interval {
    /// Classification of `now` into one of five windows, in a fixed priority
    /// order, first match wins: before today's dawn (labelled Dusk, since
    /// dusk already happened), then the dawn, daylight and sunset windows of
    /// the day, and otherwise the window from today's dusk to tomorrow's
    /// dawn (labelled Dusk again).
    pub open spec fn classify_spec(now: int, b: DayBounds) -> Interval {
        if b.yesterday_dusk < now && now < b.dawn {
            Interval { start: b.yesterday_dusk, end: b.dawn, event: ActionTrigger::Dusk }
        } else if b.dawn <= now && now < b.sunrise {
            Interval { start: b.dawn, end: b.sunrise, event: ActionTrigger::Dawn }
        } else if b.sunrise <= now && now < b.sunset {
            Interval { start: b.sunrise, end: b.sunset, event: ActionTrigger::Sunrise }
        } else if b.sunset <= now && now < b.dusk {
            Interval { start: b.sunset, end: b.dusk, event: ActionTrigger::Sunset }
        } else {
            Interval { start: b.dusk, end: b.tomorrow_dawn, event: ActionTrigger::Dusk }
        }
    }

    /// Picks the window of `now` among the given boundaries.
    pub fn classify(now: i64, b: DayBounds) -> (r: Interval)
        ensures
            r == Interval::classify_spec(now as int, b),
    {
        if b.yesterday_dusk < now && now < b.dawn {
            Interval { start: b.yesterday_dusk, end: b.dawn, event: ActionTrigger::Dusk }
        } else if b.dawn <= now && now < b.sunrise {
            Interval { start: b.dawn, end: b.sunrise, event: ActionTrigger::Dawn }
        } else if b.sunrise <= now && now < b.sunset {
            Interval { start: b.sunrise, end: b.sunset, event: ActionTrigger::Sunrise }
        } else if b.sunset <= now && now < b.dusk {
            Interval { start: b.sunset, end: b.dusk, event: ActionTrigger::Sunset }
        } else {
            Interval { start: b.dusk, end: b.tomorrow_dawn, event: ActionTrigger::Dusk }
        }
    }

    pub fn current_event(&self) -> (r: ActionTrigger)
        ensures
            r == self.event,
    {
        self.event
    }
}

/// Classification partitions the day cycle: for ordered boundaries and any
/// instant strictly between the previous dusk and the next dawn, the chosen
/// window contains the instant, and it is exactly the one of the five
/// adjacent windows the instant lies in, labelled Dusk, Dawn, Sunrise,
/// Sunset and Dusk in order; the windows cover the whole span with no gaps
/// and no overlaps.
pub proof fn lemma_classify_partitions(now: int, b: DayBounds)
    requires
        bounds_ordered(b),
        b.yesterday_dusk < now < b.tomorrow_dawn,
    ensures
        ({
            let iv = Interval::classify_spec(now, b);
            &&& iv.start <= now < iv.end
            &&& (now < b.dawn ==> iv == (Interval {
                start: b.yesterday_dusk,
                end: b.dawn,
                event: ActionTrigger::Dusk,
            }))
            &&& (b.dawn <= now < b.sunrise ==> iv == (Interval {
                start: b.dawn,
                end: b.sunrise,
                event: ActionTrigger::Dawn,
            }))
            &&& (b.sunrise <= now < b.sunset ==> iv == (Interval {
                start: b.sunrise,
                end: b.sunset,
                event: ActionTrigger::Sunrise,
            }))
            &&& (b.sunset <= now < b.dusk ==> iv == (Interval {
                start: b.sunset,
                end: b.dusk,
                event: ActionTrigger::Sunset,
            }))
            &&& (b.dusk <= now ==> iv == (Interval {
                start: b.dusk,
                end: b.tomorrow_dawn,
                event: ActionTrigger::Dusk,
            }))
        }),
{
}

/// The boundary instant as the 64-bit value the executable code carries;
/// meaningful where the event is defined.
pub open spec fn event64(c: sunrise::Coordinates, d: int, k: ActionTrigger) -> i64 {
    solar_event_ts(c, d, k).unwrap() as i64
}

/// All six boundaries around the day opening at `d0` are defined.
pub open spec fn solar_bounds_defined(c: sunrise::Coordinates, d0: int) -> bool {
    &&& solar_event_ts(c, d0 - 86400, ActionTrigger::Dusk) is Some
    &&& solar_event_ts(c, d0, ActionTrigger::Dawn) is Some
    &&& solar_event_ts(c, d0, ActionTrigger::Sunrise) is Some
    &&& solar_event_ts(c, d0, ActionTrigger::Sunset) is Some
    &&& solar_event_ts(c, d0, ActionTrigger::Dusk) is Some
    &&& solar_event_ts(c, d0 + 86400, ActionTrigger::Dawn) is Some
}

/// The six boundaries around the day opening at `d0`.
pub open spec fn solar_bounds(c: sunrise::Coordinates, d0: int) -> DayBounds {
    DayBounds {
        yesterday_dusk: event64(c, d0 - 86400, ActionTrigger::Dusk),
        dawn: event64(c, d0, ActionTrigger::Dawn),
        sunrise: event64(c, d0, ActionTrigger::Sunrise),
        sunset: event64(c, d0, ActionTrigger::Sunset),
        dusk: event64(c, d0, ActionTrigger::Dusk),
        tomorrow_dawn: event64(c, d0 + 86400, ActionTrigger::Dawn),
    }
}

/// A geographic position: sunrise's validated pair for the astronomical
/// collaborator, and the same position in micro-degrees as the plain values
/// reported on failure.
#[derive(Debug, Clone, Copy)]
pub struct LocationInfo {
    pub coords: sunrise::Coordinates,
    pub latitude_micro: i64,
    pub longitude_micro: i64,
}

impl LocationInfo {
    pub fn new(coords: sunrise::Coordinates, latitude_micro: i64, longitude_micro: i64) -> (r:
        Self)
        ensures
            r == (LocationInfo { coords, latitude_micro, longitude_micro }),
    {
        LocationInfo { coords, latitude_micro, longitude_micro }
    }

    /// The day around `date` has all six boundaries, so `date` can be
    /// classified.
    pub open spec fn interval_ok(self, date: int) -> bool {
        solar_bounds_defined(self.coords, day_start(date))
    }

    /// The window of `date`, among the boundaries of its day.
    pub open spec fn interval_spec(self, date: int) -> Interval {
        Interval::classify_spec(date, solar_bounds(self.coords, day_start(date)))
    }

    /// Computes the current civil-twilight interval at `date`. Fails with the
    /// coordinate failure class when a boundary does not occur (polar day or
    /// polar night), as reported by the astronomical collaborator.
    pub fn interval_at(&self, date: i64) -> (r: Result<Interval, Error>)
        requires
            valid_instant(date as int),
        ensures
            r is Ok <==> self.interval_ok(date as int),
            r is Ok ==> r.unwrap() == self.interval_spec(date as int),
            r is Err ==> r == Err::<Interval, Error>(
                Error::InvalidCoordinates(self.latitude_micro, self.longitude_micro),
            ),
    {
        let d0 = day_start_at(date);
        let yesterday_dusk = solar_event_time(&self.coords, d0 - 86400, ActionTrigger::Dusk);
        let dawn = solar_event_time(&self.coords, d0, ActionTrigger::Dawn);
        let sunrise = solar_event_time(&self.coords, d0, ActionTrigger::Sunrise);
        let sunset = solar_event_time(&self.coords, d0, ActionTrigger::Sunset);
        let dusk = solar_event_time(&self.coords, d0, ActionTrigger::Dusk);
        let tomorrow_dawn = solar_event_time(&self.coords, d0 + 86400, ActionTrigger::Dawn);
        match (yesterday_dusk, dawn, sunrise, sunset, dusk, tomorrow_dawn) {
            (Some(yd), Some(da), Some(sr), Some(ss), Some(du), Some(td)) => Ok(
                Interval::classify(
                    date,
                    DayBounds {
                        yesterday_dusk: yd,
                        dawn: da,
                        sunrise: sr,
                        sunset: ss,
                        dusk: du,
                        tomorrow_dawn: td,
                    },
                ),
            ),
            _ => Err(Error::InvalidCoordinates(self.latitude_micro, self.longitude_micro)),
        }
    }
}

/// The partition law at the position level: wherever the day's boundaries
/// are defined, ordered as a civil day orders them, and the instant lies
/// strictly between the previous dusk and the next dawn, the computed
/// interval contains the instant. The ordering is a property of the
/// astronomical data, so it stands here as a premise.
pub proof fn lemma_interval_contains_instant(loc: LocationInfo, date: int)
    requires
        loc.interval_ok(date),
        bounds_ordered(solar_bounds(loc.coords, day_start(date))),
        solar_bounds(loc.coords, day_start(date)).yesterday_dusk < date < solar_bounds(
            loc.coords,
            day_start(date),
        ).tomorrow_dawn,
    ensures
        ({
            let iv = loc.interval_spec(date);
            iv.start <= date < iv.end
        }),
{
    lemma_classify_partitions(date, solar_bounds(loc.coords, day_start(date)));
}

/// A source of scheduled trigger instants: either coordinates-driven or a
/// fixed daily list.
pub trait Trigger: Sized {
    /// The inputs on which the source is meaningful.
    spec fn trigger_wf(&self) -> bool;

    /// The next scheduled boundary after (or around) `date`: its kind and
    /// its instant.
    spec fn next_spec(&self, date: int) -> Option<(ActionTrigger, int)>;

    /// Returns exactly the modeled next boundary.
    fn next_action_at(&self, date: i64) -> (r: Option<(ActionTrigger, i64)>)
        requires
            self.trigger_wf(),
            valid_instant(date as int),
        ensures
            (match (r, self.next_spec(date as int)) {
                (Some((k, t)), Some((sk, st))) => k == sk && t == st,
                (None, None) => true,
                _ => false,
            }),
    ;
}

impl Trigger for LocationInfo {
    open spec fn trigger_wf(&self) -> bool {
        true
    }

    /// The next boundary is the successor of the current interval's event,
    /// at the instant the current interval ends. Where a boundary is
    /// undefined (polar day or night) there is no next event.
    open spec fn next_spec(&self, date: int) -> Option<(ActionTrigger, int)> {
        if self.interval_ok(date) {
            let iv = self.interval_spec(date);
            Some((iv.event.next_spec(), iv.end as int))
        } else {
            None
        }
    }

    fn next_action_at(&self, date: i64) -> (r: Option<(ActionTrigger, i64)>) {
        match self.interval_at(date) {
            Ok(interval) => Some((interval.current_event().next(), interval.end)),
            Err(_) => None,
        }
    }
}

/// The distance between two times of day, as a plain absolute difference —
/// deliberately not cyclic: near midnight, 23:59 and 00:01 count as almost a
/// full day apart. A known edge of the design, kept as specified.
pub open spec fn time_distance(stamp_tod: int, tod: int) -> int {
    if stamp_tod >= tod {
        stamp_tod - tod
    } else {
        tod - stamp_tod
    }
}

/// The entry of `stamps[..n]` whose time of day is closest to `tod`; on a
/// tie the later entry of the list wins.
pub open spec fn closest_stamp_prefix(
    stamps: Seq<ManualTimeStamp>,
    n: int,
    tod: int,
) -> Option<ManualTimeStamp>
    decreases n,
{
    if n <= 0 {
        None
    } else {
        let cur = stamps[n - 1];
        match closest_stamp_prefix(stamps, n - 1, tod) {
            None => Some(cur),
            Some(p) => if time_distance(cur.trigger_time as int, tod) <= time_distance(
                p.trigger_time as int,
                tod,
            ) {
                Some(cur)
            } else {
                Some(p)
            },
        }
    }
}

/// The selected entry is one of the list, and no entry of the list lies
/// closer to `tod`: "closest" means exactly what it says.
pub proof fn lemma_closest_stamp_is_minimal(stamps: Seq<ManualTimeStamp>, n: int, tod: int)
    requires
        0 < n <= stamps.len(),
    ensures
        closest_stamp_prefix(stamps, n, tod) is Some,
        ({
            let m = closest_stamp_prefix(stamps, n, tod).unwrap();
            &&& exists|i: int| 0 <= i < n && stamps[i] == m
            &&& forall|i: int|
                0 <= i < n ==> time_distance(m.trigger_time as int, tod) <= time_distance(
                    (#[trigger] stamps[i]).trigger_time as int,
                    tod,
                )
        }),
    decreases n,
{
    if n == 1 {
        assert(stamps[0] == closest_stamp_prefix(stamps, 1, tod).unwrap());
    } else {
        lemma_closest_stamp_is_minimal(stamps, n - 1, tod);
        let prev = closest_stamp_prefix(stamps, n - 1, tod).unwrap();
        let m = closest_stamp_prefix(stamps, n, tod).unwrap();
        if time_distance(stamps[n - 1].trigger_time as int, tod) <= time_distance(
            prev.trigger_time as int,
            tod,
        ) {
            assert(m == stamps[n - 1]);
        } else {
            assert(m == prev);
        }
    }
}

/// The manual schedule's next event at `date`: the entry closest in time of
/// day, fired today at its time of day. An empty schedule has no next event.
pub open spec fn manual_next_spec(stamps: Seq<ManualTimeStamp>, date: int) -> Option<
    (ActionTrigger, int),
> {
    match closest_stamp_prefix(stamps, stamps.len() as int, time_of_day(date)) {
        None => None,
        Some(m) => Some((m.action, day_start(date) + m.trigger_time)),
    }
}

impl Trigger for Vec<ManualTimeStamp> {
    open spec fn trigger_wf(&self) -> bool {
        forall|i: int| 0 <= i < self@.len() ==> (#[trigger] self@[i]).wf()
    }

    open spec fn next_spec(&self, date: int) -> Option<(ActionTrigger, int)> {
        manual_next_spec(self@, date)
    }

    fn next_action_at(&self, date: i64) -> (r: Option<(ActionTrigger, i64)>) {
        if self.len() == 0 {
            return None;
        }
        let tod = time_of_day_at(date);
        let mut best: ManualTimeStamp = self[0];
        let mut i: usize = 1;
        proof {
            assert(closest_stamp_prefix(self@, 0, tod as int) is None);
            assert(Some(best) == closest_stamp_prefix(self@, 1, tod as int));
        }
        while i < self.len()
            invariant
                1 <= i <= self@.len(),
                valid_instant(date as int),
                tod == time_of_day(date as int),
                Some(best) == closest_stamp_prefix(self@, i as int, tod as int),
            decreases self@.len() - i,
        {
            let cur = self[i];
            if distance_to(cur, tod) <= distance_to(best, tod) {
                best = cur;
            }
            i += 1;
        }
        let ds = day_start_at(date);
        Some((best.action, ds + best.trigger_time as i64))
    }
}

/// The absolute difference between a stamp's time of day and `tod`.
fn distance_to(stamp: ManualTimeStamp, tod: i64) -> (r: i64)
    requires
        0 <= tod < 86400,
    ensures
        r == time_distance(stamp.trigger_time as int, tod as int),
{
    let st = stamp.trigger_time as i64;
    if st >= tod {
        st - tod
    } else {
        tod - st
    }
}

/// A trigger source together with the action map consulted when one of its
/// events fires.
#[derive(Debug)]
pub struct Scheduler<T: Trigger> {
    pub actions: Actions,
    pub trigger: T,
}

impl Scheduler<LocationInfo> {
    /// A coordinates-driven scheduler.
    pub fn automatic(trigger: LocationInfo, actions: Actions) -> (r: Self)
        ensures
            r.trigger == trigger,
            r.actions == actions,
    {
        Scheduler { actions, trigger }
    }
}

impl Scheduler<Vec<ManualTimeStamp>> {
    /// A fixed-daily-times scheduler.
    pub fn manual(time_stamps: Vec<ManualTimeStamp>, actions: Actions) -> (r: Self)
        ensures
            r.trigger == time_stamps,
            r.actions == actions,
    {
        Scheduler { actions, trigger: time_stamps }
    }
}

impl<T: Trigger> Scheduler<T> {
    /// The command configured for a trigger kind, if any.
    pub fn get_action(&self, trigger: ActionTrigger) -> (r: Option<String>)
        ensures
            r == self.actions.get_spec(trigger),
    {
        self.actions.get(trigger)
    }
}

/// Everything a scheduling loop asks of a source: the next event after an
/// instant, resolved to the configured command.
pub trait EventSource: Sized {
    /// The inputs on which the source is meaningful.
    spec fn source_wf(&self) -> bool;

    /// The next event: instant, kind and configured command.
    spec fn next_event_spec(&self, date: int) -> Option<EventInfo>;

    /// Returns exactly the modeled next event.
    fn next_event_at(&self, date: i64) -> (r: Option<EventInfo>)
        requires
            self.source_wf(),
            valid_instant(date as int),
        ensures
            r == self.next_event_spec(date as int),
    ;
}

impl<T: Trigger> EventSource for Scheduler<T> {
    open spec fn source_wf(&self) -> bool {
        self.trigger.trigger_wf()
    }

    open spec fn next_event_spec(&self, date: int) -> Option<EventInfo> {
        match self.trigger.next_spec(date) {
            None => None,
            Some((k, t)) => Some(
                EventInfo { at: t as i64, trigger: k, action: self.actions.get_spec(k) },
            ),
        }
    }

    fn next_event_at(&self, date: i64) -> (r: Option<EventInfo>) {
        match self.trigger.next_action_at(date) {
            None => None,
            Some((k, t)) => Some(EventInfo { at: t, trigger: k, action: self.get_action(k) }),
        }
    }
}

/// The two source variants behind a trigger source.
#[derive(Debug)]
pub enum SourceKind {
    Automatic(Scheduler<LocationInfo>),
    Manual(Scheduler<Vec<ManualTimeStamp>>),
}

/// The active trigger source of one configuration epoch: built from a
/// configuration snapshot, discarded and rebuilt on every reload.
#[derive(Debug)]
pub struct TriggerSource {
    pub event_source: SourceKind,
}

impl TriggerSource {
    /// Builds the source the configuration asks for: the automatic schedule
    /// when present (failing with `InvalidCoordinates` when its position is
    /// out of range or was rejected at the boundary), otherwise the manual
    /// schedule, and `InvalidConfiguration` when neither is present.
    pub fn from_config(config: &Configuration) -> (r: Result<TriggerSource, Error>)
        ensures
            (match config.automatic {
                Some(auto) => {
                    if coordinates_in_range(
                        auto.latitude_micro as int,
                        auto.longitude_micro as int,
                    ) && auto.coords is Some {
                        &&& r is Ok
                        &&& (r.unwrap().event_source matches SourceKind::Automatic(s)
                            && s.trigger.coords == auto.coords.unwrap()
                            && s.trigger.latitude_micro == auto.latitude_micro
                            && s.trigger.longitude_micro == auto.longitude_micro
                            && s.actions == config.actions)
                    } else {
                        r == Err::<TriggerSource, Error>(
                            Error::InvalidCoordinates(auto.latitude_micro, auto.longitude_micro),
                        )
                    }
                },
                None => match config.manual {
                    Some(m) => {
                        &&& r is Ok
                        &&& (r.unwrap().event_source matches SourceKind::Manual(s)
                            && s.trigger@ == m.time_stamps@
                            && s.actions == config.actions)
                    },
                    None => r == Err::<TriggerSource, Error>(Error::InvalidConfiguration),
                },
            }),
    {
        match &config.automatic {
            Some(auto) => {
                let lat_ok = -90_000_000 <= auto.latitude_micro && auto.latitude_micro
                    <= 90_000_000;
                let lon_ok = -180_000_000 <= auto.longitude_micro && auto.longitude_micro
                    <= 180_000_000;
                match auto.coords {
                    Some(coords) if lat_ok && lon_ok => Ok(
                        TriggerSource {
                            event_source: SourceKind::Automatic(
                                Scheduler::automatic(
                                    LocationInfo::new(
                                        coords,
                                        auto.latitude_micro,
                                        auto.longitude_micro,
                                    ),
                                    config.actions.clone(),
                                ),
                            ),
                        },
                    ),
                    _ => Err(
                        Error::InvalidCoordinates(auto.latitude_micro, auto.longitude_micro),
                    ),
                }
            },
            None => match &config.manual {
                Some(manual) => Ok(
                    TriggerSource {
                        event_source: SourceKind::Manual(
                            Scheduler::manual(manual.time_stamps.clone(), config.actions.clone()),
                        ),
                    },
                ),
                None => Err(Error::InvalidConfiguration),
            },
        }
    }
}

impl EventSource for TriggerSource {
    open spec fn source_wf(&self) -> bool {
        match self.event_source {
            SourceKind::Automatic(s) => s.source_wf(),
            SourceKind::Manual(s) => s.source_wf(),
        }
    }

    open spec fn next_event_spec(&self, date: int) -> Option<EventInfo> {
        match self.event_source {
            SourceKind::Automatic(s) => s.next_event_spec(date),
            SourceKind::Manual(s) => s.next_event_spec(date),
        }
    }

    fn next_event_at(&self, date: i64) -> (r: Option<EventInfo>) {
        match &self.event_source {
            SourceKind::Automatic(s) => s.next_event_at(date),
            SourceKind::Manual(s) => s.next_event_at(date),
        }
    }
}

/// The instant of the last trigger already fired, so that one interval
/// boundary fires at most once across imprecise polling.
#[derive(Debug, Clone, Copy, PartialEq, Eq, Structural)]
pub struct EventCache {
    pub last_fired: Option<i64>,
}

impl EventCache {
    pub fn new() -> (r: Self)
        ensures
            r.last_fired is None,
    {
        EventCache { last_fired: None }
    }
}

/// The target lies within the 10-second tolerance band around `now`.
pub open spec fn fire_window(now: int, at: int) -> bool {
    -10 < at - now < 10
}

/// An absent or empty command string means no action is run: a configured
/// trigger with no action is a silent no-op.
pub open spec fn nonempty_action(a: Option<String>) -> Option<String> {
    match a {
        Some(s) => if s@.len() > 0 {
            Some(s)
        } else {
            None
        },
        None => None,
    }
}

impl TriggerSource {
    /// The fire decision and the cache it leaves behind: the command fires
    /// when the next event's instant lies in the tolerance window of `now`
    /// and was not already recorded; firing records the instant even when no
    /// command is configured.
    pub open spec fn should_trigger_spec(self, now: int, last_fired: Option<i64>) -> (
        Option<String>,
        Option<i64>,
    ) {
        match self.next_event_spec(now) {
            None => (None, last_fired),
            Some(ev) => if fire_window(now, ev.at as int) && last_fired != Some(ev.at) {
                (nonempty_action(ev.action), Some(ev.at))
            } else {
                (None, last_fired)
            },
        }
    }

    /// Decides, at wake-up instant `now`, whether the armed event has
    /// elapsed and should fire exactly once, recording it in the cache.
    pub fn should_trigger(&self, now: i64, cache: &mut EventCache) -> (r: Option<String>)
        requires
            self.source_wf(),
            valid_instant(now as int),
        ensures
            ({
                let (sr, sc) = self.should_trigger_spec(now as int, old(cache).last_fired);
                r == sr && final(cache).last_fired == sc
            }),
    {
        match self.next_event_at(now) {
            None => None,
            Some(ev) => {
                let diff: i128 = ev.at as i128 - now as i128;
                let within = -10 < diff && diff < 10;
                let duplicate = match cache.last_fired {
                    Some(t) => t == ev.at,
                    None => false,
                };
                if within && !duplicate {
                    cache.last_fired = Some(ev.at);
                    match ev.action {
                        Some(command) => if command.as_str().is_empty() {
                            None
                        } else {
                            Some(command)
                        },
                        None => None,
                    }
                } else {
                    None
                }
            },
        }
    }
}

/// The next-event query is a pure function of the source and the instant:
/// any two results it allows for the same source and instant are equal, so
/// asking twice with an unchanged source returns identical results.
pub proof fn lemma_next_event_idempotent<S: EventSource>(
    s: S,
    date: int,
    r1: Option<EventInfo>,
    r2: Option<EventInfo>,
)
    requires
        r1 == s.next_event_spec(date),
        r2 == s.next_event_spec(date),
    ensures
        r1 == r2,
{
}

/// Dedupe: within one tolerance window a target fires at most once. After
/// any call, a second call at the same instant with the cache the first one
/// left returns nothing and leaves the cache unchanged.
pub proof fn lemma_should_trigger_dedupe(s: TriggerSource, now: int, last_fired: Option<i64>)
    ensures
        ({
            let (r1, c1) = s.should_trigger_spec(now, last_fired);
            let (r2, c2) = s.should_trigger_spec(now, c1);
            r2 is None && c2 == c1
        }),
{
}

/// A manual scheduler with an empty time-stamp list never has a next event
/// and never fires.
pub proof fn lemma_manual_empty_never_fires(s: TriggerSource, now: int, last_fired: Option<i64>)
    requires
        (match s.event_source {
            SourceKind::Manual(sch) => sch.trigger@.len() == 0,
            _ => false,
        }),
    ensures
        s.next_event_spec(now) is None,
        ({
            let (r, c) = s.should_trigger_spec(now, last_fired);
            r is None && c == last_fired
        }),
{
}

} // verus!
