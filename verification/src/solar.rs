use vstd::prelude::*;

use crate::scheduler::ActionTrigger;

verus! {

/// Instants are Unix timestamps in whole seconds, UTC. The bound keeps every
/// instant the scheduler handles, plus a day of slack on either side, inside
/// the range that the calendar collaborator accepts without failing.
pub open spec fn valid_instant(ts: int) -> bool {
    -4_000_000_000_000 <= ts <= 4_000_000_000_000
}

/// The UTC midnight opening the civil day that contains `ts`.
pub open spec fn day_start(ts: int) -> int {
    ts - (ts % 86400)
}

/// Seconds since the UTC midnight of the day that contains `ts`.
pub open spec fn time_of_day(ts: int) -> int {
    ts % 86400
}

/// Computes the UTC midnight opening the day that contains `ts`.
pub fn day_start_at(ts: i64) -> (r: i64)
    requires
        valid_instant(ts as int),
    ensures
        r == day_start(ts as int),
        0 <= ts - r < 86400,
{
    let rem = ts.checked_rem_euclid(86400).unwrap();
    ts - rem
}

/// Computes the seconds since UTC midnight of the day that contains `ts`.
pub fn time_of_day_at(ts: i64) -> (r: i64)
    requires
        valid_instant(ts as int),
    ensures
        r == time_of_day(ts as int),
        0 <= r < 86400,
{
    ts.checked_rem_euclid(86400).unwrap()
}

/// The instants for which the calendar collaborator accepts a day: a little
/// wider than `valid_instant`, so that the day before and the day after any
/// valid instant still fall inside it.
pub open spec fn calendar_range(ts: int) -> bool {
    -4_100_000_000_000 <= ts <= 4_100_000_000_000
}

/// sunrise's validated coordinate pair, carried opaquely: the library never
/// reads its components and only hands it back to sunrise when the boundary
/// instants of a day are computed.
#[verifier::external_type_specification]
#[verifier::external_body]
pub struct ExCoordinates(sunrise::Coordinates);

/// The instant at which the given civil-twilight event occurs on the UTC day
/// opening at `day_start_ts`, for the given coordinates, or `None` when the
/// event does not occur on that day. The astronomical computation is a pure
/// function of these three arguments, which this name records.
pub uninterp spec fn solar_event_ts(
    coords: sunrise::Coordinates,
    day_start_ts: int,
    event: ActionTrigger,
) -> Option<int>;

/// Relies on sunrise::SolarDay::event_time, applied to the UTC day that opens
/// at `day_start_ts`: it returns the instant of the requested event (civil
/// twilight for dawn and dusk), and `None` when the event does not occur on
/// that day (polar day or polar night). The result depends on the
/// coordinates, the day and the event alone.
#[verifier::external_body]
pub(crate) fn solar_event_time(
    coords: &sunrise::Coordinates,
    day_start_ts: i64,
    event: ActionTrigger,
) -> (r: Option<i64>)
    requires
        calendar_range(day_start_ts as int),
    ensures
        (match (r, solar_event_ts(*coords, day_start_ts as int, event)) {
            (Some(t), Some(s)) => t == s,
            (None, None) => true,
            _ => false,
        }),
{
    let date = chrono::DateTime::from_timestamp(day_start_ts, 0)
        .unwrap()
        .date_naive();
    let solar_event = match event {
        ActionTrigger::Sunrise => sunrise::SolarEvent::Sunrise,
        ActionTrigger::Sunset => sunrise::SolarEvent::Sunset,
        ActionTrigger::Dawn => sunrise::SolarEvent::Dawn(sunrise::DawnType::Civil),
        ActionTrigger::Dusk => sunrise::SolarEvent::Dusk(sunrise::DawnType::Civil),
    };
    let day = sunrise::SolarDay::new(*coords, date);
    day.event_time(solar_event).map(|t| t.timestamp())
}

} // verus!
