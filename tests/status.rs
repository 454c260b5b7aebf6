use std::collections::HashSet;
use weather_saga::ids::LocationZoneCode;
use weather_saga::status::{LocationUpdateStatus, UpdateStep, UpdateSteps};
use weather_saga::update_state::{UpdateWeatherStateDiscriminants, WeatherUpdateStatus};

fn zone(code: &str) -> LocationZoneCode {
    LocationZoneCode::new(code.to_string())
}

fn codes(zones: Vec<LocationZoneCode>) -> HashSet<String> {
    zones.into_iter().map(|z| z.code).collect()
}

fn set(codes: &[&str]) -> HashSet<String> {
    codes.iter().map(|c| c.to_string()).collect()
}

#[test]
fn test_advance_and_completed() {
    let mut status = LocationUpdateStatus::succeeded();
    assert!(matches!(status, LocationUpdateStatus::Succeeded));
    assert!(status.is_completed(), "succeeded is complete");
    assert!(!status.is_active(), "succeeded is not active");

    status = LocationUpdateStatus::failed();
    assert!(matches!(status, LocationUpdateStatus::Failed));
    assert!(status.is_completed(), "failed is complete");
    assert!(!status.is_active(), "failed is not active");

    status = LocationUpdateStatus::default();
    assert!(matches!(status, LocationUpdateStatus::InProgress(_)));
    assert!(!status.is_completed(), "default is not complete");
    assert!(status.is_active(), "default is active");

    status.advance(UpdateStep::Forecast);
    assert!(matches!(status, LocationUpdateStatus::InProgress(_)));
    assert!(!status.is_completed(), "forecast is not complete");
    assert!(status.is_active(), "forecast is active");

    status.advance(UpdateStep::Observation);
    assert!(matches!(status, LocationUpdateStatus::Succeeded));
    assert!(status.is_completed(), "forecast+observation is complete");
    assert!(!status.is_active(), "forecast+observation is not active");

    status.advance(UpdateStep::Alert);
    assert!(matches!(status, LocationUpdateStatus::Succeeded));
    assert!(status.is_completed(), "forecast+observation+alert is complete");
    assert!(!status.is_active(), "forecast+observation+alert is not active");

    status = LocationUpdateStatus::default();
    status.advance(UpdateStep::Observation);
    assert!(matches!(status, LocationUpdateStatus::InProgress(_)));
    assert!(!status.is_completed(), "observation is not complete");
    assert!(status.is_active(), "observation is active");
    status.advance(UpdateStep::Forecast);
    assert!(matches!(status, LocationUpdateStatus::Succeeded));
    assert!(status.is_completed(), "observation+forecast is complete");
    assert!(!status.is_active(), "observation+forecast is not active");

    status.advance(UpdateStep::Alert);
    assert!(matches!(status, LocationUpdateStatus::Succeeded));
    assert!(status.is_completed(), "observation+forecast+alert is complete");
    assert!(!status.is_active(), "observation+forecast+alert is not active");

    status = LocationUpdateStatus::default();
    status.advance(UpdateStep::Alert);
    assert!(matches!(status, LocationUpdateStatus::InProgress(_)));
    assert!(!status.is_completed(), "alert is not complete");
    assert!(status.is_active(), "alert is active");

    status.advance(UpdateStep::Forecast);
    assert!(matches!(status, LocationUpdateStatus::InProgress(_)));
    assert!(!status.is_completed(), "alert+forecast is not complete");
    assert!(status.is_active(), "alert+forecast is active");

    status.advance(UpdateStep::Observation);
    assert!(matches!(status, LocationUpdateStatus::Succeeded));
    assert!(status.is_completed(), "alert+forecast+observation is complete");
    assert!(!status.is_active(), "alert+forecast+observation is not active");

    status = LocationUpdateStatus::default();
    status.advance(UpdateStep::Alert);
    status.advance(UpdateStep::Observation);
    assert!(matches!(status, LocationUpdateStatus::InProgress(_)));
    assert!(!status.is_completed(), "alert+observation is not complete");
    assert!(status.is_active(), "alert+observation is active");

    status.advance(UpdateStep::Forecast);
    assert!(matches!(status, LocationUpdateStatus::Succeeded));
    assert!(status.is_completed(), "alert+observation+forecast is complete");
    assert!(!status.is_active(), "alert+observation+forecast is active");
}

#[test]
fn combining_statuses_prefers_failure_then_success() {
    let obs = LocationUpdateStatus::default().plus_step(UpdateStep::Observation);
    let fc = LocationUpdateStatus::default().plus_step(UpdateStep::Forecast);
    assert_eq!(obs.plus(fc), LocationUpdateStatus::Succeeded);
    assert_eq!(obs.plus(LocationUpdateStatus::Failed), LocationUpdateStatus::Failed);
    assert_eq!(LocationUpdateStatus::Succeeded.plus(obs), LocationUpdateStatus::Succeeded);
    let steps = UpdateSteps::empty().with(UpdateStep::Alert).with(UpdateStep::Observation);
    assert_eq!(LocationUpdateStatus::default().plus_steps(steps), LocationUpdateStatus::InProgress(steps));
    assert!(LocationUpdateStatus::Failed.contains(UpdateStep::Forecast));
    assert!(!obs.contains(UpdateStep::Forecast));
}

#[test]
fn test_is_only_active_zone() {
    let mut status = WeatherUpdateStatus::new(vec![zone("foo"), zone("bar"), zone("zed")]);
    status.advance_zone_step(&zone("bar"), UpdateStep::Observation);
    status.advance_zone_step(&zone("bar"), UpdateStep::Forecast);
    status.advance_zone_step(&zone("zed"), UpdateStep::Observation);
    status.advance_zone_step(&zone("zed"), UpdateStep::Forecast);
    assert_eq!(status.status_for(&zone("bar")), Some(LocationUpdateStatus::Succeeded));
    assert_eq!(status.status_for(&zone("zed")), Some(LocationUpdateStatus::Succeeded));

    assert!(status.is_only_active_zone(&zone("foo")));
    assert!(!status.is_only_active_zone(&zone("bar")));
    assert!(!status.is_only_active_zone(&zone("zed")));
    assert!(!status.is_only_active_zone(&zone("otis")), "otis is not a zone");
}

#[test]
fn test_weather_update_status_advance() {
    let otis = zone("otis");
    let stella = zone("stella");
    let neo = zone("neo");

    let mut status = WeatherUpdateStatus::new(vec![otis.clone(), stella.clone(), neo.clone()]);
    status.alerts_reviewed = true;
    assert_eq!(codes(status.active_zones()), set(&["otis", "stella", "neo"]));

    let state_otis = status.advance_zone_step(&otis, UpdateStep::Alert);
    assert_eq!(state_otis, UpdateWeatherStateDiscriminants::Active);
    assert_eq!(
        status.status_for(&otis).unwrap(),
        LocationUpdateStatus::InProgress(UpdateSteps::empty().with(UpdateStep::Alert))
    );
    assert_eq!(codes(status.active_zones()), set(&["otis", "stella", "neo"]));

    let state_otis = status.advance_zone_step(&otis, UpdateStep::Observation);
    assert_eq!(state_otis, UpdateWeatherStateDiscriminants::Active);
    assert_eq!(
        status.status_for(&otis).unwrap(),
        LocationUpdateStatus::InProgress(UpdateSteps::empty().with(UpdateStep::Alert).with(UpdateStep::Observation))
    );
    assert_eq!(codes(status.active_zones()), set(&["otis", "stella", "neo"]));

    let state = status.advance_zone_step(&otis, UpdateStep::Forecast);
    assert_eq!(state, UpdateWeatherStateDiscriminants::Active);
    assert_eq!(status.status_for(&otis).unwrap(), LocationUpdateStatus::Succeeded);
    assert_eq!(codes(status.active_zones()), set(&["stella", "neo"]));

    assert_eq!(codes(status.succeeded_zones()), set(&["otis"]));
    assert_eq!(codes(status.active_zones()), set(&["stella", "neo"]));

    status.advance_zone_step(&stella, UpdateStep::Forecast);
    status.advance_zone_step(&stella, UpdateStep::Observation);
    status.advance_zone_step(&stella, UpdateStep::Alert);
    assert_eq!(codes(status.succeeded_zones()), set(&["otis", "stella"]));

    status.advance_zone_step(&neo, UpdateStep::Alert);
    status.advance_zone_step(&neo, UpdateStep::Forecast);
    let state = status.advance_zone_step(&neo, UpdateStep::Observation);
    assert_eq!(state, UpdateWeatherStateDiscriminants::Finished);
    assert_eq!(codes(status.succeeded_zones()), set(&["otis", "stella", "neo"]));
}

#[test]
fn failed_zone_is_listed_and_terminal() {
    let mut status = WeatherUpdateStatus::new(vec![zone("otis"), zone("neo"), zone("otis")]);
    assert_eq!(status.active_zones().len(), 2);
    let d = status.update_zone_failure_for(&zone("neo"));
    assert_eq!(d, UpdateWeatherStateDiscriminants::Active);
    assert_eq!(codes(status.failed_zones()), set(&["neo"]));
    assert_eq!(status.status_for(&zone("neo")), Some(LocationUpdateStatus::Failed));
    status.advance_zone_step(&zone("neo"), UpdateStep::Observation);
    assert_eq!(status.status_for(&zone("neo")), Some(LocationUpdateStatus::Failed));
}

/// Reads a stored status: serde_json parses the text, the library reads the fields.
fn read_status(text: &str) -> Result<LocationUpdateStatus, String> {
    let value: serde_json::Value = serde_json::from_str(text).map_err(|e| e.to_string())?;
    let status = value.get("status").and_then(|s| s.as_str()).ok_or("missing status")?;
    let completed = match value.get("completed") {
        None => None,
        Some(steps) => {
            let names = steps.as_array().ok_or("completed is not a list")?;
            let mut parsed = Vec::new();
            for name in names {
                let name = name.as_str().ok_or("step is not a string")?;
                parsed.push(UpdateStep::from_name(name).ok_or("unknown step")?);
            }
            Some(parsed)
        },
    };
    LocationUpdateStatus::from_fields(status, completed).map_err(|e| format!("{e:?}"))
}

#[test]
fn test_location_update_status_serde_json() {
    let mut wip = LocationUpdateStatus::default();
    let expected = r##"{"status":"in_progress","completed":[]}"##;
    assert_eq!(wip.to_json(), expected);
    assert_eq!(wip, read_status(expected).unwrap());

    wip.advance(UpdateStep::Forecast);
    let expected = r##"{"status":"in_progress","completed":["forecast"]}"##;
    assert_eq!(wip.to_json(), expected);
    assert_eq!(wip, read_status(expected).unwrap());

    wip.advance(UpdateStep::Observation);
    let expected = r##"{"status":"succeeded"}"##;
    assert_eq!(wip.to_json(), expected);
    assert_eq!(wip, read_status(expected).unwrap());

    wip.advance(UpdateStep::Alert);
    let expected = r##"{"status":"succeeded"}"##;
    assert_eq!(wip.to_json(), expected);
    assert_eq!(wip, read_status(expected).unwrap());

    wip = LocationUpdateStatus::default();
    wip.advance(UpdateStep::Alert);
    wip.advance(UpdateStep::Observation);
    let expected = r##"{"status":"in_progress","completed":["observation","alert"]}"##;
    assert_eq!(wip.to_json(), expected);
    assert_eq!(wip, read_status(expected).unwrap());

    let expected = r##"{"status":"failed"}"##;
    assert_eq!(LocationUpdateStatus::failed().to_json(), expected);
    assert_eq!(LocationUpdateStatus::failed(), read_status(expected).unwrap());

    assert!(read_status(r##"{"status":"foobar"}"##).is_err());
}

#[test]
fn in_progress_without_steps_is_refused() {
    assert!(matches!(
        LocationUpdateStatus::from_fields("in_progress", None),
        Err(weather_saga::status::StatusFieldError::MissingCompleted)
    ));
    assert!(matches!(
        LocationUpdateStatus::from_fields("done", None),
        Err(weather_saga::status::StatusFieldError::InvalidStatus(s)) if s == "done"
    ));
}
