//! Local wall-clock time in a named zone, and its conversion to UTC.
//!
//! The zone rules are those of the IANA database as `chrono-tz` carries
//! them, and the text format is read and written by `chrono`. What those two
//! crates compute is named here by functions without a body; everything that
//! is decided on their results is verified.

use vstd::prelude::*;
use chrono::{DateTime, LocalResult, NaiveDateTime, TimeZone, Timelike};
use chrono_tz::Tz;
use std::fmt::Write;
use std::str::FromStr;
use crate::instant::{timestamp_in_range, UtcTime};

verus! {

/// The format of a local timestamp, `YYYY-MM-DDTHH:MM:SS`, as a strftime
/// pattern.
pub const LOCAL_TIME_FORMAT: &'static str = "%Y-%m-%dT%H:%M:%S";

/// The zone that applies where none is configured.
pub const DEFAULT_ZONE_NAME: &'static str = "Europe/Helsinki";

/// The instants that a local wall-clock time stands for in a zone.
#[derive(Clone, Copy, Debug, PartialEq, Eq, Structural)]
pub enum LocalMapping {
    /// The local time stands for no instant: the clock was turned forward
    /// over it, or its instant is one that the time library cannot hold.
    Skipped,
    /// The local time occurred once, at this many seconds since the epoch.
    Single(i64),
    /// The clock was turned back over this local time: it occurred twice.
    Ambiguous(i64, i64),
}

/// Why a local timestamp could not be converted to UTC.
#[derive(Clone, Copy, Debug, PartialEq, Eq, Structural)]
pub enum TimeParseError {
    /// The text is not a timestamp of the form `YYYY-MM-DDTHH:MM:SS`.
    Malformed,
    /// The local time stands for no instant in the zone: the clock was
    /// turned forward over it.
    SkippedLocalTime,
    /// The instant lies outside the range that [`UtcTime`] holds.
    OutOfRange,
}

/// Whether `name` identifies a zone of the IANA database that `chrono-tz`
/// carries: whether `chrono_tz::Tz::from_str` accepts it.
pub uninterp spec fn zone_known(name: Seq<char>) -> bool;

/// What `chrono::NaiveDateTime::parse_from_str` reads `text` as under the
/// pattern `format`: the whole seconds between 1970-01-01T00:00:00 and the
/// wall-clock time that `text` denotes, or `None` where it rejects `text`.
pub uninterp spec fn parsed_local_seconds(text: Seq<char>, format: Seq<char>) -> Option<i64>;

/// What `TimeZone::from_local_datetime` of the zone `zone` gives for the
/// wall-clock time `local_seconds` seconds after 1970-01-01T00:00:00.
pub uninterp spec fn zone_local_mapping(zone: Seq<char>, local_seconds: int) -> LocalMapping;

/// The hour of the day, as `Timelike::hour` gives it, that a clock in the
/// zone `zone` shows at the instant `utc_seconds`.
pub uninterp spec fn zone_local_hour(zone: Seq<char>, utc_seconds: int) -> u32;

/// The text that `DateTime::format` writes under the pattern `format` for
/// the instant `utc_seconds` as a clock in the zone `zone` shows it, or
/// `None` where `chrono` refuses the pattern.
pub uninterp spec fn zone_local_text(zone: Seq<char>, utc_seconds: int, format: Seq<char>) -> Option<
    Seq<char>,
>;

/// The instant, in seconds since the epoch, that `Timelike::with_hour`
/// gives for the instant `utc_seconds` seen in the zone `zone`: the same
/// local date and time with the hour replaced by `hour`, or `None` where
/// `chrono` finds no single such instant.
pub uninterp spec fn zone_with_hour(zone: Seq<char>, utc_seconds: int, hour: u32) -> Option<i64>;

/// As [`zone_with_hour`], for `Timelike::with_minute`.
pub uninterp spec fn zone_with_minute(zone: Seq<char>, utc_seconds: int, minute: u32) -> Option<i64>;

/// As [`zone_with_hour`], for `Timelike::with_second`.
pub uninterp spec fn zone_with_second(zone: Seq<char>, utc_seconds: int, second: u32) -> Option<i64>;

/// Calls `chrono_tz::Tz::from_str`, which looks `name` up in the table of
/// zone identifiers that the crate was built with. The contract only names
/// the outcome.
#[verifier::external_body]
fn zone_exists(name: &str) -> (known: bool)
    ensures
        known == zone_known(name@),
{
    Tz::from_str(name).is_ok()
}

/// Calls `chrono::NaiveDateTime::parse_from_str` and hands back the parsed
/// wall-clock time as seconds since 1970-01-01T00:00:00. The contract only
/// names the outcome: nothing is claimed about which texts `chrono` accepts.
#[verifier::external_body]
fn parse_local_seconds(text: &str, format: &str) -> (seconds: Option<i64>)
    ensures
        seconds == parsed_local_seconds(text@, format@),
{
    match NaiveDateTime::parse_from_str(text, format) {
        Ok(local) => Some(local.and_utc().timestamp()),
        Err(_) => None,
    }
}

/// Calls `TimeZone::from_local_datetime` on the `chrono_tz::Tz` that `zone`
/// names and hands back its three cases with each instant in seconds since
/// the epoch. The contract only names the outcome. The two `requires` keep
/// out the inputs on which the conversions of the arguments would panic.
#[verifier::external_body]
fn local_mapping(zone: &str, local_seconds: i64) -> (mapping: LocalMapping)
    requires
        zone_known(zone@),
        timestamp_in_range(local_seconds as int),
    ensures
        mapping == zone_local_mapping(zone@, local_seconds as int),
{
    let tz: Tz = Tz::from_str(zone).unwrap();
    let local: NaiveDateTime = DateTime::from_timestamp(local_seconds, 0).unwrap().naive_utc();
    match tz.from_local_datetime(&local) {
        LocalResult::None => LocalMapping::Skipped,
        LocalResult::Single(t) => LocalMapping::Single(t.timestamp()),
        LocalResult::Ambiguous(a, b) => LocalMapping::Ambiguous(a.timestamp(), b.timestamp()),
    }
}

/// Calls `DateTime::with_timezone` and `Timelike::hour`: the hour that a
/// clock in the zone shows at the instant. The contract only names the
/// outcome.
#[verifier::external_body]
fn local_hour(zone: &str, utc_seconds: i64) -> (hour: u32)
    requires
        zone_known(zone@),
        timestamp_in_range(utc_seconds as int),
    ensures
        hour == zone_local_hour(zone@, utc_seconds as int),
{
    let tz: Tz = Tz::from_str(zone).unwrap();
    DateTime::from_timestamp(utc_seconds, 0).unwrap().with_timezone(&tz).hour()
}

/// Calls `DateTime::format` on the instant as seen in the zone and collects
/// what it writes; `None` where writing fails, which `chrono` does on a
/// pattern it does not accept. The contract only names the outcome.
#[verifier::external_body]
fn local_text(zone: &str, utc_seconds: i64, format: &str) -> (text: Option<String>)
    requires
        zone_known(zone@),
        timestamp_in_range(utc_seconds as int),
    ensures
        match text {
            Some(written) => zone_local_text(zone@, utc_seconds as int, format@) == Some(written@),
            None => zone_local_text(zone@, utc_seconds as int, format@) is None,
        },
{
    let tz: Tz = Tz::from_str(zone).unwrap();
    let local: DateTime<Tz> = DateTime::from_timestamp(utc_seconds, 0).unwrap().with_timezone(&tz);
    let mut written: String = String::new();
    match write!(written, "{}", local.format(format)) {
        Ok(()) => Some(written),
        Err(_) => None,
    }
}

/// Calls `Timelike::with_hour` on the instant as seen in the zone and hands
/// back the instant it gives, in seconds since the epoch. The contract only
/// names the outcome.
#[verifier::external_body]
fn with_local_hour(zone: &str, utc_seconds: i64, hour: u32) -> (changed: Option<i64>)
    requires
        zone_known(zone@),
        timestamp_in_range(utc_seconds as int),
    ensures
        changed == zone_with_hour(zone@, utc_seconds as int, hour),
{
    let tz: Tz = Tz::from_str(zone).unwrap();
    let local: DateTime<Tz> = DateTime::from_timestamp(utc_seconds, 0).unwrap().with_timezone(&tz);
    local.with_hour(hour).map(|changed| changed.timestamp())
}

/// Calls `Timelike::with_minute` on the instant as seen in the zone and
/// hands back the instant it gives, in seconds since the epoch. The contract
/// only names the outcome.
#[verifier::external_body]
fn with_local_minute(zone: &str, utc_seconds: i64, minute: u32) -> (changed: Option<i64>)
    requires
        zone_known(zone@),
        timestamp_in_range(utc_seconds as int),
    ensures
        changed == zone_with_minute(zone@, utc_seconds as int, minute),
{
    let tz: Tz = Tz::from_str(zone).unwrap();
    let local: DateTime<Tz> = DateTime::from_timestamp(utc_seconds, 0).unwrap().with_timezone(&tz);
    local.with_minute(minute).map(|changed| changed.timestamp())
}

/// Calls `Timelike::with_second` on the instant as seen in the zone and
/// hands back the instant it gives, in seconds since the epoch. The contract
/// only names the outcome.
#[verifier::external_body]
fn with_local_second(zone: &str, utc_seconds: i64, second: u32) -> (changed: Option<i64>)
    requires
        zone_known(zone@),
        timestamp_in_range(utc_seconds as int),
    ensures
        changed == zone_with_second(zone@, utc_seconds as int, second),
{
    let tz: Tz = Tz::from_str(zone).unwrap();
    let local: DateTime<Tz> = DateTime::from_timestamp(utc_seconds, 0).unwrap().with_timezone(&tz);
    local.with_second(second).map(|changed| changed.timestamp())
}

/// The instant that an optional number of seconds stands for, where there
/// is one and it can be held.
pub open spec fn held_instant(seconds: Option<i64>) -> Option<int> {
    match seconds {
        Some(secs) => if timestamp_in_range(secs as int) {
            Some(secs as int)
        } else {
            None
        },
        None => None,
    }
}

/// Whether `time` holds the instant `expected`, or both hold none.
pub open spec fn is_held(time: Option<UtcTime>, expected: Option<int>) -> bool {
    match time {
        Some(t) => expected == Some(t@),
        None => expected is None,
    }
}

/// Holds an optional number of seconds as an instant.
fn hold(seconds: Option<i64>) -> (time: Option<UtcTime>)
    ensures
        is_held(time, held_instant(seconds)),
{
    match seconds {
        Some(secs) => UtcTime::from_timestamp(secs),
        None => None,
    }
}

/// A time zone of the IANA database, held by its identifier. Its view is
/// the identifier, which is always one that [`zone_known`] holds of.
#[derive(Debug)]
pub struct Zone {
    name: String,
}

impl View for Zone {
    type V = Seq<char>;

    closed spec fn view(&self) -> Seq<char> {
        self.name@
    }
}

impl Zone {
    #[verifier::type_invariant]
    closed spec fn known(self) -> bool {
        zone_known(self.name@)
    }

    /// The zone that `name` identifies, `None` where it identifies none.
    pub fn parse(name: &str) -> (zone: Option<Zone>)
        ensures
            zone is Some <==> zone_known(name@),
            zone matches Some(z) ==> z@ == name@,
    {
        if zone_exists(name) {
            Some(Zone { name: name.to_owned() })
        } else {
            None
        }
    }

    /// The identifier of the zone.
    pub fn name(&self) -> (name: &str)
        ensures
            name@ == self@,
            zone_known(name@),
    {
        proof {
            use_type_invariant(self);
        }
        self.name.as_str()
    }

    /// The hour of the day that a clock in this zone shows at `time`.
    pub fn local_hour(&self, time: UtcTime) -> (hour: u32)
        ensures
            hour == zone_local_hour(self@, time@),
    {
        local_hour(self.name(), time.timestamp())
    }

    /// The instants that the wall-clock time `local_seconds` seconds after
    /// 1970-01-01T00:00:00 stands for in this zone; `None` where
    /// `local_seconds` is outside the range of instants that can be held.
    pub fn local_mapping(&self, local_seconds: i64) -> (mapping: Option<LocalMapping>)
        ensures
            mapping == (if timestamp_in_range(local_seconds as int) {
                Some(zone_local_mapping(self@, local_seconds as int))
            } else {
                None
            }),
    {
        if UtcTime::from_timestamp(local_seconds).is_some() {
            Some(local_mapping(self.name(), local_seconds))
        } else {
            None
        }
    }

    /// The instant at which a clock in this zone shows the date and time
    /// that it shows at `time`, with the hour replaced by `hour`; `None`
    /// where there is no such instant, or more than one.
    pub fn with_hour(&self, time: UtcTime, hour: u32) -> (changed: Option<UtcTime>)
        ensures
            is_held(changed, held_instant(zone_with_hour(self@, time@, hour))),
    {
        hold(with_local_hour(self.name(), time.timestamp(), hour))
    }

    /// As [`Zone::with_hour`], with the minute replaced.
    pub fn with_minute(&self, time: UtcTime, minute: u32) -> (changed: Option<UtcTime>)
        ensures
            is_held(changed, held_instant(zone_with_minute(self@, time@, minute))),
    {
        hold(with_local_minute(self.name(), time.timestamp(), minute))
    }

    /// As [`Zone::with_hour`], with the second replaced.
    pub fn with_second(&self, time: UtcTime, second: u32) -> (changed: Option<UtcTime>)
        ensures
            is_held(changed, held_instant(zone_with_second(self@, time@, second))),
    {
        hold(with_local_second(self.name(), time.timestamp(), second))
    }

    /// `time` as a clock in this zone shows it, written under the strftime
    /// pattern `format`; `None` where the pattern is refused.
    pub fn format(&self, time: UtcTime, format: &str) -> (text: Option<String>)
        ensures
            timestamp_in_range(time@),
            match text {
                Some(written) => zone_local_text(self@, time@, format@) == Some(written@),
                None => zone_local_text(self@, time@, format@) is None,
            },
    {
        local_text(self.name(), time.timestamp(), format)
    }
}

/// The zone to work in: the one that `configured` names, and
/// [`DEFAULT_ZONE_NAME`] where nothing is configured. `None` where the name
/// identifies no zone.
pub fn get_timezone(configured: Option<&str>) -> (zone: Option<Zone>)
    ensures
        zone is Some <==> zone_known(configured_zone_name(configured)),
        zone matches Some(z) ==> z@ == configured_zone_name(configured),
{
    match configured {
        Some(name) => Zone::parse(name),
        None => Zone::parse(DEFAULT_ZONE_NAME),
    }
}

/// The identifier that [`get_timezone`] looks up.
pub open spec fn configured_zone_name(configured: Option<&str>) -> Seq<char> {
    match configured {
        Some(name) => name@,
        None => DEFAULT_ZONE_NAME@,
    }
}

/// The instant that a mapping is resolved to. A local time that occurred
/// twice is resolved to the earlier of its two instants.
pub open spec fn spec_resolve_mapping(mapping: LocalMapping) -> Result<int, TimeParseError> {
    match mapping {
        LocalMapping::Skipped => Err(TimeParseError::SkippedLocalTime),
        LocalMapping::Single(t) => if timestamp_in_range(t as int) {
            Ok(t as int)
        } else {
            Err(TimeParseError::OutOfRange)
        },
        LocalMapping::Ambiguous(a, b) => {
            let earliest: int = if a <= b {
                a as int
            } else {
                b as int
            };
            if timestamp_in_range(earliest) {
                Ok(earliest)
            } else {
                Err(TimeParseError::OutOfRange)
            }
        },
    }
}

/// The instant that the timestamp `text`, read as wall-clock time in the
/// zone `zone`, denotes.
pub open spec fn spec_local_to_utc(text: Seq<char>, zone: Seq<char>) -> Result<int, TimeParseError> {
    match parsed_local_seconds(text, LOCAL_TIME_FORMAT@) {
        None => Err(TimeParseError::Malformed),
        Some(local) => if timestamp_in_range(local as int) {
            spec_resolve_mapping(zone_local_mapping(zone, local as int))
        } else {
            Err(TimeParseError::OutOfRange)
        },
    }
}

/// Whether `result` holds the instant or the error that `expected` gives.
pub open spec fn is_conversion(result: Result<UtcTime, TimeParseError>, expected: Result<
    int,
    TimeParseError,
>) -> bool {
    match result {
        Ok(time) => expected == Ok::<int, TimeParseError>(time@),
        Err(error) => expected == Err::<int, TimeParseError>(error),
    }
}

/// Picks the instant of a local time from what the zone maps it to. The
/// rule for a local time that occurred twice, in the hour after the clock
/// was turned back, is fixed: the earlier instant is taken, the one before
/// the clock was turned back. A local time that was skipped is an error.
pub fn resolve_mapping(mapping: LocalMapping) -> (result: Result<UtcTime, TimeParseError>)
    ensures
        is_conversion(result, spec_resolve_mapping(mapping)),
{
    let chosen: i64 = match mapping {
        LocalMapping::Skipped => {
            return Err(TimeParseError::SkippedLocalTime);
        },
        LocalMapping::Single(t) => t,
        LocalMapping::Ambiguous(a, b) => if a <= b {
            a
        } else {
            b
        },
    };
    match UtcTime::from_timestamp(chosen) {
        Some(time) => Ok(time),
        None => Err(TimeParseError::OutOfRange),
    }
}

/// Converts a local timestamp of the form `YYYY-MM-DDTHH:MM:SS` to UTC by
/// the rules of `zone` that are in force at that local time.
pub fn local_to_utc(naive: &str, zone: &Zone) -> (result: Result<UtcTime, TimeParseError>)
    ensures
        is_conversion(result, spec_local_to_utc(naive@, zone@)),
{
    match parse_local_seconds(naive, LOCAL_TIME_FORMAT) {
        None => Err(TimeParseError::Malformed),
        Some(local) => match zone.local_mapping(local) {
            Some(mapping) => resolve_mapping(mapping),
            None => Err(TimeParseError::OutOfRange),
        },
    }
}

/// Converts a local timestamp to UTC; the same as [`local_to_utc`].
pub fn parse_time_to_utc(time: &str, zone: &Zone) -> (result: Result<UtcTime, TimeParseError>)
    ensures
        is_conversion(result, spec_local_to_utc(time@, zone@)),
{
    local_to_utc(time, zone)
}

/// Conversion is repeatable: whatever two conversions of the same local
/// timestamp in the same zone give is the same, also inside the hour that
/// occurs twice when the clock is turned back.
pub proof fn lemma_conversion_is_repeatable(
    text: Seq<char>,
    zone: Seq<char>,
    first: Result<UtcTime, TimeParseError>,
    second: Result<UtcTime, TimeParseError>,
)
    requires
        is_conversion(first, spec_local_to_utc(text, zone)),
        is_conversion(second, spec_local_to_utc(text, zone)),
    ensures
        first == second,
{
    match (first, second) {
        (Ok(a), Ok(b)) => {
            UtcTime::lemma_view_injective(a, b);
        },
        _ => {},
    }
}

/// An instant that is written as local time converts back to itself,
/// as far as that rests on this library: where the time library reads the
/// written text back as a wall-clock time that the zone maps to the instant
/// alone, the conversion gives the instant; and where the zone maps it to
/// two instants of which the instant is one, inside the hour that occurs
/// twice, the conversion gives the earlier of the two. That the time
/// library reads back what it wrote, and maps it to the instant it came
/// from, is a premise here: it is a property of that library and of its zone
/// tables, which nothing in this crate states of them.
pub proof fn lemma_written_time_converts_back(
    zone: Seq<char>,
    time: int,
    text: Seq<char>,
    local: i64,
    other: i64,
)
    requires
        timestamp_in_range(time),
        timestamp_in_range(local as int),
        timestamp_in_range(other as int),
        zone_local_text(zone, time, LOCAL_TIME_FORMAT@) == Some(text),
        parsed_local_seconds(text, LOCAL_TIME_FORMAT@) == Some(local),
    ensures
        zone_local_mapping(zone, local as int) == LocalMapping::Single(time as i64)
            ==> spec_local_to_utc(text, zone) == Ok::<int, TimeParseError>(time),
        zone_local_mapping(zone, local as int) == LocalMapping::Ambiguous(time as i64, other)
            || zone_local_mapping(zone, local as int) == LocalMapping::Ambiguous(
            other,
            time as i64,
        ) ==> spec_local_to_utc(text, zone) == Ok::<int, TimeParseError>(
            if time <= other {
                time
            } else {
                other as int
            },
        ),
{
}

/// A local time that occurred once converts to its instant, and one that
/// occurred twice to the earlier of its two instants, whichever way round
/// they are given.
pub proof fn lemma_earlier_instant_is_taken(a: i64, b: i64)
    requires
        timestamp_in_range(a as int),
        timestamp_in_range(b as int),
    ensures
        spec_resolve_mapping(LocalMapping::Single(a)) == Ok::<int, TimeParseError>(a as int),
        spec_resolve_mapping(LocalMapping::Ambiguous(a, b)) == spec_resolve_mapping(
            LocalMapping::Ambiguous(b, a),
        ),
        spec_resolve_mapping(LocalMapping::Ambiguous(a, b)) matches Ok(t) && t <= a && t <= b && (t
            == a || t == b),
{
}

/// Converts a local timestamp to UTC as [`local_to_utc`] does, for callers
/// that only need to know whether it could be done.
pub fn local_to_utc_opt(naive: &str, zone: &Zone) -> (time: Option<UtcTime>)
    ensures
        time is Some <==> spec_local_to_utc(naive@, zone@) is Ok,
        time matches Some(t) ==> spec_local_to_utc(naive@, zone@) == Ok::<int, TimeParseError>(t@),
{
    match local_to_utc(naive, zone) {
        Ok(time) => Some(time),
        Err(_) => None,
    }
}

} // verus!
