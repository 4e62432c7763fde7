use chrono::{DateTime, TimeZone, Timelike, Utc};
use wattivahti::amount::Amount;
use wattivahti::auth::{choose_access_token, needs_token, TokenRequest, TokenResponse};
use wattivahti::contract::EnergyConfigError;
use wattivahti::contracts::ConfigValidationError;
use wattivahti::endpoints::{first_action, next_action, TimeParams, UpdateAction, UpdateStep};
use wattivahti::instant::{UtcTime, MAX_TIMESTAMP, MIN_TIMESTAMP};
use wattivahti::models::MeasurementType;
use wattivahti::portal::{
    classify_response, day_ahead_price, meter_data_url, token_url, FetchError,
};
use wattivahti::schedule::{get_next_fetch_milliseconds, get_start_stop, get_time_after_duration};
use wattivahti::settings::is_enabled;
use wattivahti::time::{local_to_utc, parse_time_to_utc, Zone, LOCAL_TIME_FORMAT};

fn helsinki() -> Zone {
    Zone::parse("Europe/Helsinki").unwrap()
}

fn at(secs: i64) -> UtcTime {
    UtcTime::from_timestamp(secs).unwrap()
}

fn response(token: Option<&str>) -> TokenResponse {
    TokenResponse {
        status: "ok".to_string(),
        message: None,
        access_token: token.map(|text| text.to_string()),
    }
}

#[test]
fn test_get_start_stop() {
    // 2023-06-15T10:20:30Z is 13:20:30 in Helsinki.
    let (start, stop) = get_start_stop(at(1_686_824_430), &helsinki()).unwrap();
    assert_eq!(start, "2023-06-14T00:00:00");
    assert_eq!(stop, "2023-06-15T00:00:00");
    // 2023-06-15T21:30:00Z is already the 16th in Helsinki.
    let (start, stop) = get_start_stop(at(1_686_864_600), &helsinki()).unwrap();
    assert_eq!(start, "2023-06-15T00:00:00");
    assert_eq!(stop, "2023-06-16T00:00:00");
    assert_eq!(get_start_stop(at(MIN_TIMESTAMP), &helsinki()), None);
}

#[test]
fn test_get_time_after_duration() {
    // 2023-06-15T10:20:30.250Z plus six hours.
    let text = get_time_after_duration(1_686_824_430_250, 21_600_000, &helsinki()).unwrap();
    assert_eq!(text, "2023-06-15T19:20:30");
    let text = get_time_after_duration(1_686_824_430_250, 750, &helsinki()).unwrap();
    assert_eq!(text, "2023-06-15T13:20:31");
    let text = get_time_after_duration(-1, 0, &Zone::parse("UTC").unwrap()).unwrap();
    assert_eq!(text, "1969-12-31T23:59:59");
    assert_eq!(get_time_after_duration(i64::MAX, u64::MAX, &helsinki()), None);
    assert_eq!(get_time_after_duration(MAX_TIMESTAMP * 1000, 1000, &helsinki()), None);
}

#[test]
fn test_get_next_fetch_milliseconds() {
    // 2023-06-15T10:20:30Z is 13:20:30 in Helsinki; the next fetch is at
    // 06:00 the day after, which is 03:00Z.
    let now = at(1_686_824_430);
    let wait = get_next_fetch_milliseconds(now, None, None, &helsinki()).unwrap();
    assert_eq!(wait, (1_686_884_400 - 1_686_824_430) * 1000);
    let wait = get_next_fetch_milliseconds(now, Some(14), Some(45), &helsinki()).unwrap();
    assert_eq!(wait, (1_686_915_900 - 1_686_824_430) * 1000);
    assert_eq!(get_next_fetch_milliseconds(now, Some(24), None, &helsinki()), None);
    assert_eq!(get_next_fetch_milliseconds(now, None, Some(60), &helsinki()), None);
}

#[test]
fn next_fetch_across_a_transition_waits_in_real_time() {
    // 2023-03-25T10:00:00Z is noon in Helsinki; the clock is turned forward
    // in the night, so 06:00 the day after is 03:00Z, 17 hours later.
    let now = at(1_679_738_400);
    let wait = get_next_fetch_milliseconds(now, None, None, &helsinki()).unwrap();
    assert_eq!(wait, 17 * 3_600_000);
}

#[test]
fn next_fetch_at_a_repeated_local_time_is_none() {
    // 2022-10-29T12:00:00Z: the next day 03:30 local time occurs twice.
    let now = at(1_667_044_800);
    assert_eq!(get_next_fetch_milliseconds(now, Some(3), Some(30), &helsinki()), None);
    assert!(get_next_fetch_milliseconds(now, Some(5), Some(30), &helsinki()).is_some());
}

#[test]
fn local_text_converts_back_to_the_same_instant() {
    let zones = ["Europe/Helsinki", "America/New_York", "Asia/Kolkata", "UTC", "Australia/Lord_Howe"];
    // Every 40 minutes over three years, transitions included.
    for name in zones {
        let zone = Zone::parse(name).unwrap();
        let tz: chrono_tz::Tz = name.parse().unwrap();
        let mut secs: i64 = 1_640_995_200;
        while secs < 1_735_689_600 {
            let time = at(secs);
            let text = zone.format(time, LOCAL_TIME_FORMAT).unwrap();
            let local = DateTime::<Utc>::from_timestamp(secs, 0).unwrap().with_timezone(&tz);
            let back = local_to_utc(&text, &zone).unwrap();
            assert_eq!(parse_time_to_utc(&text, &zone), Ok(back));
            assert_eq!(text, local.format("%Y-%m-%dT%H:%M:%S").to_string());
            match tz.from_local_datetime(&local.naive_local()) {
                chrono::LocalResult::Single(_) => assert_eq!(back, time),
                chrono::LocalResult::Ambiguous(first, second) => {
                    // Inside a repeated hour the earlier instant is given,
                    // each time.
                    assert!(first.timestamp() < second.timestamp());
                    assert_eq!(back.timestamp(), first.timestamp());
                    assert!(secs == first.timestamp() || secs == second.timestamp());
                    assert_eq!(local_to_utc(&text, &zone).unwrap(), back);
                }
                chrono::LocalResult::None => panic!("an instant has a local time"),
            }
            assert_eq!(zone.local_hour(time), local.hour());
            secs += 2400;
        }
    }
}

#[test]
fn local_text_has_the_form_of_a_local_timestamp() {
    assert_eq!(
        helsinki().format(at(1_679_781_600), LOCAL_TIME_FORMAT).unwrap(),
        "2023-03-26T00:00:00"
    );
    assert_eq!(
        helsinki().format(at(1_679_792_400), LOCAL_TIME_FORMAT).unwrap(),
        "2023-03-26T04:00:00"
    );
    assert_eq!(helsinki().format(at(0), "%H").unwrap(), "02");
    assert_eq!(helsinki().format(at(0), "%Q"), None);
}

#[test]
fn local_fields_are_replaced_one_at_a_time() {
    let zone = helsinki();
    // 2023-06-15T10:20:30Z is 13:20:30 in Helsinki.
    let now = at(1_686_824_430);
    assert_eq!(zone.with_hour(now, 6).unwrap().timestamp(), 1_686_824_430 - 7 * 3600);
    assert_eq!(zone.with_minute(now, 0).unwrap().timestamp(), 1_686_824_430 - 20 * 60);
    assert_eq!(zone.with_second(now, 0).unwrap().timestamp(), 1_686_824_400);
    assert_eq!(zone.with_hour(now, 24), None);
    // 2023-03-26T10:00:00Z: 03:00 local time was skipped that day.
    assert_eq!(zone.with_hour(at(1_679_824_800), 3), None);
}

#[test]
fn credentials_take_precedence_over_a_configured_token() {
    assert!(!needs_token(""));
    assert!(needs_token("user"));
    let configured = || "configured".to_string();
    assert_eq!(choose_access_token(configured(), "", None), Some(configured()));
    assert_eq!(
        choose_access_token(configured(), "", Some(response(Some("fresh")))),
        Some(configured())
    );
    assert_eq!(
        choose_access_token(configured(), "user", Some(response(Some("fresh")))),
        Some("fresh".to_string())
    );
    assert_eq!(choose_access_token(configured(), "user", Some(response(None))), None);
    assert_eq!(choose_access_token(configured(), "user", None), None);
    let request = TokenRequest::new("user", "secret");
    assert_eq!(request.username, "user");
    assert_eq!(request.password, "secret");
}

#[test]
fn request_names_its_resolution_or_takes_an_hour() {
    let params = TimeParams::new("2023-01-01T00:00:00", "2023-01-02T00:00:00", None);
    assert_eq!(params.start, "2023-01-01T00:00:00");
    assert_eq!(params.stop, "2023-01-02T00:00:00");
    assert_eq!(params.resolution, "PT1H");
    let params = TimeParams::new("a", "b", Some("PT15MIN"));
    assert_eq!(params.resolution, "PT15MIN");
}

fn run(action: UpdateAction) -> UpdateStep {
    match action {
        UpdateAction::Run(step) => step,
        UpdateAction::Respond { status, body } => panic!("answered {} {}", status, body),
    }
}

fn answer(action: UpdateAction) -> (u16, String) {
    match action {
        UpdateAction::Run(step) => panic!("went on with {:?}", step),
        UpdateAction::Respond { status, body } => (status, body),
    }
}

#[test]
fn request_runs_its_steps_in_order() {
    assert_eq!(run(first_action("user")), UpdateStep::Token);
    assert_eq!(run(first_action("")), UpdateStep::Consumption);
    assert_eq!(run(next_action(UpdateStep::Token, None)), UpdateStep::Consumption);
    assert_eq!(run(next_action(UpdateStep::Consumption, None)), UpdateStep::Production);
    assert_eq!(run(next_action(UpdateStep::Production, None)), UpdateStep::ConsumptionViews);
    assert_eq!(run(next_action(UpdateStep::ConsumptionViews, None)), UpdateStep::ProductionViews);
    assert_eq!(answer(next_action(UpdateStep::ProductionViews, None)), (200, "ok".to_string()));
}

#[test]
fn failed_step_ends_the_request() {
    let failure = || Some("connection refused".to_string());
    assert_eq!(
        answer(next_action(UpdateStep::Token, failure())),
        (500, "Error \"Logging {} - {} failed because of accessToken\"".to_string())
    );
    for step in [
        UpdateStep::Consumption,
        UpdateStep::Production,
        UpdateStep::ConsumptionViews,
        UpdateStep::ProductionViews,
    ] {
        assert_eq!(answer(next_action(step, failure())), (500, "connection refused".to_string()));
    }
}

#[test]
fn address_of_a_series_names_point_direction_interval_and_step() {
    assert_eq!(
        meter_data_url(
            "https://portal.example/api/v1/",
            "1337",
            MeasurementType::Consumption,
            "2023-02-01T00:00:00",
            "2023-03-01T00:00:00",
            "PT1H"
        ),
        "https://portal.example/api/v1/meterdata2?meteringPointCode=1337&measurementType=1\
         &start=2023-02-01T00:00:00&stop=2023-03-01T00:00:00&resultStep=PT1H"
    );
    assert_eq!(
        meter_data_url("", "7", MeasurementType::Production, "a", "b", "PT15MIN"),
        "meterdata2?meteringPointCode=7&measurementType=6&start=a&stop=b&resultStep=PT15MIN"
    );
    assert_eq!(token_url("https://auth.example"), "https://auth.example/wattivahti/token");
}

#[test]
fn reply_is_data_only_with_status_200() {
    let body = || "{\"a\":1}".to_string();
    assert!(matches!(classify_response(200, body()), Ok(text) if text == body()));
    assert!(matches!(classify_response(401, body()), Err(FetchError::Unauthorized)));
    assert!(matches!(classify_response(500, body()), Err(FetchError::Rejected(said)) if said == body()));
    assert!(matches!(classify_response(204, body()), Err(FetchError::Rejected(_))));
}

#[test]
fn price_that_is_not_stored_is_zero() {
    let price = Amount::from_micros(45_670_000);
    let other = Amount::from_micros(1);
    assert_eq!(day_ahead_price(&vec![]), Amount::zero());
    assert_eq!(day_ahead_price(&vec![vec![]]), Amount::zero());
    assert_eq!(day_ahead_price(&vec![vec![], vec![price]]), Amount::zero());
    assert_eq!(day_ahead_price(&vec![vec![price, other], vec![other]]), price);
}

#[test]
fn switch_is_off_unless_set_to_true() {
    assert_eq!(is_enabled(None), Some(false));
    assert_eq!(is_enabled(Some("true")), Some(true));
    assert_eq!(is_enabled(Some("false")), Some(false));
    assert_eq!(is_enabled(Some("True")), None);
    assert_eq!(is_enabled(Some("1")), None);
    assert_eq!(is_enabled(Some("")), None);
}

#[test]
fn faults_are_told_in_words() {
    assert_eq!(
        ConfigValidationError::OverlappingContracts { earlier: 0, later: 1 }.message(),
        "Overlapping contracts detected"
    );
    assert_eq!(
        ConfigValidationError::GapBetweenContracts { earlier: 0, later: 1 }.message(),
        "Gap between contracts detected"
    );
    assert_eq!(
        ConfigValidationError::MissingFees { contract: 0, error: EnergyConfigError::MissingFixedFees }
            .message(),
        "For Fixed contract type, day_fee and night_fee are required"
    );
    assert_eq!(
        EnergyConfigError::MissingSpotMargin.message(),
        "For Spot contract type, margin is required"
    );
}

#[test]
fn amounts_count_millionths() {
    assert_eq!(Amount::from_units(24), Amount::from_micros(24_000_000));
    assert_eq!(Amount::from_units(-3).micros(), -3_000_000);
    assert!(Amount::from_micros(-1).is_negative());
    assert!(!Amount::zero().is_negative());
    assert_eq!(wattivahti::amount::floor_div(-7, 2), -4);
    assert_eq!(wattivahti::amount::floor_div(7, 2), 3);
    assert_eq!(wattivahti::amount::floor_div(-8, 2), -4);
}
