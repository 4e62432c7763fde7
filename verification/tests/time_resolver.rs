use chrono::{DateTime, Utc};
use wattivahti::instant::{add_offset, UtcTime, MAX_TIMESTAMP, MIN_TIMESTAMP};
use wattivahti::resolution::ResolutionDuration;
use wattivahti::time::{
    get_timezone, local_to_utc, resolve_mapping, LocalMapping, TimeParseError, Zone,
};

fn helsinki() -> Zone {
    Zone::parse("Europe/Helsinki").unwrap()
}

#[test]
fn held_range_is_the_range_of_the_time_library() {
    assert_eq!(DateTime::<Utc>::MIN_UTC.timestamp(), MIN_TIMESTAMP);
    assert_eq!(DateTime::<Utc>::MAX_UTC.timestamp(), MAX_TIMESTAMP);
    assert!(UtcTime::from_timestamp(MIN_TIMESTAMP).is_some());
    assert!(UtcTime::from_timestamp(MAX_TIMESTAMP).is_some());
    assert!(UtcTime::from_timestamp(MIN_TIMESTAMP - 1).is_none());
    assert!(UtcTime::from_timestamp(MAX_TIMESTAMP + 1).is_none());
}

#[test]
fn winter_time_is_two_hours_ahead_of_utc() {
    let utc = local_to_utc("2022-03-01T00:00:00", &helsinki()).unwrap();
    assert_eq!(utc.timestamp(), 1_646_085_600);
}

#[test]
fn summer_time_is_three_hours_ahead_of_utc() {
    let utc = local_to_utc("2022-08-01T00:00:00", &helsinki()).unwrap();
    assert_eq!(utc.timestamp(), 1_659_301_200);
}

#[test]
fn malformed_text_is_rejected() {
    assert_eq!(local_to_utc("yesterday", &helsinki()), Err(TimeParseError::Malformed));
    assert_eq!(local_to_utc("2022-03-01 00:00:00", &helsinki()), Err(TimeParseError::Malformed));
    assert_eq!(local_to_utc("", &helsinki()), Err(TimeParseError::Malformed));
}

#[test]
fn skipped_local_time_is_an_error() {
    assert_eq!(
        local_to_utc("2022-03-27T03:30:00", &helsinki()),
        Err(TimeParseError::SkippedLocalTime)
    );
}

#[test]
fn repeated_local_time_resolves_to_the_earlier_instant() {
    // 2022-10-30T03:30 occurs at 00:30Z (summer time) and at 01:30Z.
    let utc = local_to_utc("2022-10-30T03:30:00", &helsinki()).unwrap();
    assert_eq!(utc.timestamp(), 1_667_089_800);
    let again = local_to_utc("2022-10-30T03:30:00", &helsinki()).unwrap();
    assert_eq!(utc, again);
}

#[test]
fn mapping_resolution_takes_the_earlier_of_two() {
    assert_eq!(resolve_mapping(LocalMapping::Single(7)).unwrap().timestamp(), 7);
    assert_eq!(resolve_mapping(LocalMapping::Ambiguous(10, 20)).unwrap().timestamp(), 10);
    assert_eq!(resolve_mapping(LocalMapping::Ambiguous(20, 10)).unwrap().timestamp(), 10);
    assert_eq!(resolve_mapping(LocalMapping::Skipped), Err(TimeParseError::SkippedLocalTime));
    assert_eq!(
        resolve_mapping(LocalMapping::Single(MAX_TIMESTAMP + 1)),
        Err(TimeParseError::OutOfRange)
    );
}

#[test]
fn unknown_zone_is_refused() {
    assert!(Zone::parse("Europe/Atlantis").is_none());
    assert!(get_timezone(Some("Nowhere")).is_none());
    assert_eq!(get_timezone(None).unwrap().name(), "Europe/Helsinki");
    assert_eq!(get_timezone(Some("Europe/Stockholm")).unwrap().name(), "Europe/Stockholm");
}

#[test]
fn offset_is_plain_addition() {
    let base = UtcTime::from_timestamp(1_679_781_600).unwrap();
    assert_eq!(
        add_offset(base, 3, ResolutionDuration::PT1H).unwrap().timestamp(),
        1_679_781_600 + 3 * 3600
    );
    assert_eq!(
        add_offset(base, 3, ResolutionDuration::PT15M).unwrap().timestamp(),
        1_679_781_600 + 3 * 900
    );
    assert_eq!(add_offset(base, 0, ResolutionDuration::PT1H).unwrap(), base);
    assert!(add_offset(base, u64::MAX, ResolutionDuration::PT1H).is_none());
}
