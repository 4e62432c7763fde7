//! When to fetch next, and which interval to fetch: the arithmetic of the
//! daily cycle. The caller reads the clock and waits; what is computed from
//! the reading is here.

use vstd::prelude::*;
use crate::instant::{timestamp_in_range, UtcTime};
use crate::time::{
    held_instant, zone_local_text, zone_with_hour, zone_with_minute, zone_with_second, Zone,
    LOCAL_TIME_FORMAT,
};

verus! {

/// The format of the first second of a local day, as a strftime pattern.
pub const DAY_START_FORMAT: &'static str = "%Y-%m-%dT00:00:00";

/// Number of seconds in a day.
pub const SECONDS_PER_DAY: i64 = 86_400;

/// The hour of the day at which data is fetched where none is configured.
pub const DEFAULT_FETCH_HOUR: u32 = 6;

/// The minute of the hour at which data is fetched where none is
/// configured.
pub const DEFAULT_FETCH_MINUTES: u32 = 0;

/// The second in which the millisecond `millis` lies.
pub open spec fn second_of(millis: int) -> int {
    millis / 1000
}

/// The text of an instant in a zone, where the instant can be held and the
/// pattern is accepted.
pub open spec fn text_of(zone: Seq<char>, seconds: int, format: Seq<char>) -> Option<Seq<char>> {
    if timestamp_in_range(seconds) {
        zone_local_text(zone, seconds, format)
    } else {
        None
    }
}

/// Whether `text` holds the characters `expected`, or both hold none.
pub open spec fn is_text(text: Option<String>, expected: Option<Seq<char>>) -> bool {
    match text {
        Some(written) => expected == Some(written@),
        None => expected is None,
    }
}

/// The instant of the next fetch after `now`: a day later, with the local
/// time of day set to `hour`:`minute`:00, each field set in turn. None
/// where one of the three steps finds no single instant.
pub open spec fn next_fetch(zone: Seq<char>, now: int, hour: u32, minute: u32) -> Option<int> {
    if !timestamp_in_range(now + SECONDS_PER_DAY) {
        None
    } else {
        match held_instant(zone_with_hour(zone, now + SECONDS_PER_DAY, hour)) {
            Some(at_hour) => match held_instant(zone_with_minute(zone, at_hour, minute)) {
                Some(at_minute) => held_instant(zone_with_second(zone, at_minute, 0)),
                None => None,
            },
            None => None,
        }
    }
}

/// The milliseconds to wait from `now` until the next fetch: until the
/// local time `fetch_hour`:`fetch_minutes`:00 of the day after `now`, where
/// the hour defaults to 6 and the minutes to 0. `None` where that local time
/// does not exist on that day or occurs twice.
pub fn get_next_fetch_milliseconds(
    now: UtcTime,
    fetch_hour: Option<u32>,
    fetch_minutes: Option<u32>,
    zone: &Zone,
) -> (wait: Option<i64>)
    ensures
        match next_fetch(
            zone@,
            now@,
            match fetch_hour {
                Some(hour) => hour,
                None => DEFAULT_FETCH_HOUR,
            },
            match fetch_minutes {
                Some(minutes) => minutes,
                None => DEFAULT_FETCH_MINUTES,
            },
        ) {
            Some(next) => wait == Some(((next - now@) * 1000) as i64) && i64::MIN <= (next - now@)
                * 1000 <= i64::MAX,
            None => wait is None,
        },
{
    let hour: u32 = match fetch_hour {
        Some(hour) => hour,
        None => DEFAULT_FETCH_HOUR,
    };
    let minutes: u32 = match fetch_minutes {
        Some(minutes) => minutes,
        None => DEFAULT_FETCH_MINUTES,
    };
    let tomorrow: UtcTime = match now.plus_seconds(SECONDS_PER_DAY) {
        Some(time) => time,
        None => {
            return None;
        },
    };
    let at_hour: UtcTime = match zone.with_hour(tomorrow, hour) {
        Some(time) => time,
        None => {
            return None;
        },
    };
    let at_minute: UtcTime = match zone.with_minute(at_hour, minutes) {
        Some(time) => time,
        None => {
            return None;
        },
    };
    match zone.with_second(at_minute, 0) {
        Some(next) => Some((next.timestamp() - now.timestamp()) * 1000),
        None => None,
    }
}

/// The interval to fetch at `now`: from the first second of the local day
/// before `now` to the first second of the local day of `now`, both as local
/// timestamps.
pub fn get_start_stop(now: UtcTime, zone: &Zone) -> (interval: Option<(String, String)>)
    ensures
        match interval {
            Some((start, stop)) => {
                &&& text_of(zone@, now@ - SECONDS_PER_DAY, DAY_START_FORMAT@) == Some(start@)
                &&& text_of(zone@, now@, DAY_START_FORMAT@) == Some(stop@)
            },
            None => {
                ||| text_of(zone@, now@ - SECONDS_PER_DAY, DAY_START_FORMAT@) is None
                ||| text_of(zone@, now@, DAY_START_FORMAT@) is None
            },
        },
{
    let yesterday: UtcTime = match now.plus_seconds(-SECONDS_PER_DAY) {
        Some(time) => time,
        None => {
            return None;
        },
    };
    let start: String = match zone.format(yesterday, DAY_START_FORMAT) {
        Some(text) => text,
        None => {
            return None;
        },
    };
    match zone.format(now, DAY_START_FORMAT) {
        Some(stop) => Some((start, stop)),
        None => None,
    }
}

/// The local timestamp of the instant `duration` milliseconds after the
/// millisecond `now_millis` since the epoch.
pub fn get_time_after_duration(now_millis: i64, duration: u64, zone: &Zone) -> (text: Option<String>)
    ensures
        is_text(text, text_of(zone@, second_of(now_millis + duration), LOCAL_TIME_FORMAT@)),
{
    let millis: i128 = now_millis as i128 + duration as i128;
    let seconds: i128 = crate::amount::floor_div(millis, 1000);
    if seconds < i64::MIN as i128 || seconds > i64::MAX as i128 {
        return None;
    }
    match UtcTime::from_timestamp(seconds as i64) {
        Some(time) => zone.format(time, LOCAL_TIME_FORMAT),
        None => None,
    }
}

} // verus!
