use std::sync::Arc;
use weather_saga::decision::{RegistrarStream, RunStream};
use weather_saga::event_log::{AppendError, EventLog};
use weather_saga::events::{RegistrarEvent, WeatherEvent};
use weather_saga::frame::WeatherFrame;
use weather_saga::ids::{LocationZoneCode, UpdateWeatherId};
use weather_saga::projection::{UpdateWeatherHistoryProjection, ZoneWeatherProjection};
use weather_saga::update_state::UpdateWeatherStateDiscriminants;
use weather_saga::status::LocationUpdateStatus;
use weather_saga::weather_data::ZoneForecast;

fn zone(code: &str) -> LocationZoneCode {
    LocationZoneCode::new(code.to_string())
}

fn run_id(id: &str) -> UpdateWeatherId {
    UpdateWeatherId::new(id.to_string())
}

#[test]
fn sequence_numbers_strictly_increase() {
    let mut log: EventLog<RegistrarEvent> = EventLog::new();
    assert_eq!(log.version(), 0);
    let v1 = log.append(&RegistrarStream, 0, vec![
        RegistrarEvent::ForecastZoneAdded { zone: zone("otis") },
        RegistrarEvent::ForecastZoneAdded { zone: zone("stella") },
    ]);
    assert_eq!(v1, Ok(2));
    let v2 = log.append(&RegistrarStream, 2, vec![RegistrarEvent::AllForecastZonesRemoved]);
    assert_eq!(v2, Ok(3));
    assert_eq!(log.sequences(), &vec![1, 2, 3]);
    let empty = log.append(&RegistrarStream, 3, vec![]);
    assert_eq!(empty, Ok(3));
}

#[test]
fn append_after_stale_read_conflicts() {
    let mut log: EventLog<RegistrarEvent> = EventLog::new();
    log.append(&RegistrarStream, 0, vec![RegistrarEvent::ForecastZoneAdded { zone: zone("otis") }]).unwrap();
    let stale = log.append(&RegistrarStream, 0, vec![RegistrarEvent::AllForecastZonesRemoved]);
    assert_eq!(stale, Err(AppendError::Conflict));
    assert_eq!(log.events().len(), 1);
}

#[test]
fn disjoint_streams_do_not_conflict() {
    let mut log: EventLog<WeatherEvent> = EventLog::new();
    log.append(&RunStream { update_id: run_id("U") }, 0, vec![WeatherEvent::AlertsReviewed { update_id: run_id("U") }]).unwrap();
    // a writer of run V that read version 0 still appends: run U's event is not in its slice
    let other = log.append(&RunStream { update_id: run_id("V") }, 0, vec![WeatherEvent::AlertsReviewed { update_id: run_id("V") }]);
    assert_eq!(other, Ok(2));
    assert_eq!(log.slice_version(&RunStream { update_id: run_id("U") }), 1);
    assert_eq!(log.slice_version(&RunStream { update_id: run_id("V") }), 2);
}

fn obs(z: &str, ts: i64) -> WeatherEvent {
    WeatherEvent::ObservationUpdated { zone: zone(z), update_id: run_id("U"), weather: Arc::new(WeatherFrame { timestamp: ts, values: vec![] }) }
}

#[test]
fn zone_projection_keeps_latest_columns() {
    let mut p = ZoneWeatherProjection::new();
    p.handle(1, &obs("otis", 10), 100);
    p.handle(2, &WeatherEvent::ForecastUpdated {
        zone: zone("otis"),
        update_id: run_id("U"),
        forecast: Arc::new(ZoneForecast { zone_code: "otis".to_string(), updated: 5, periods: vec![] }),
    }, 200);
    p.handle(3, &obs("otis", 20), 300);
    let row = p.weather_by_zone(&zone("otis")).unwrap();
    assert_eq!(row.current.as_ref().unwrap().timestamp, 20);
    assert_eq!(row.forecast.as_ref().unwrap().updated, 5);
    assert!(row.alert.is_none());
    assert_eq!(row.last_updated_at, 300);
    assert!(p.weather_by_zone(&zone("neo")).is_none());
    assert_eq!(p.checkpoint(), 3);
}

#[test]
fn zone_projection_replay_is_idempotent() {
    let deliveries = vec![(1u64, obs("otis", 10)), (2, obs("neo", 11)), (3, obs("otis", 12))];
    let mut p = ZoneWeatherProjection::new();
    for (s, e) in &deliveries {
        p.handle(*s, e, 100);
    }
    for (s, e) in &deliveries {
        p.handle(*s, e, 999);
    }
    let row = p.weather_by_zone(&zone("otis")).unwrap();
    assert_eq!(row.current.as_ref().unwrap().timestamp, 12);
    assert_eq!(row.last_updated_at, 100);
    assert_eq!(p.weather_by_zone(&zone("neo")).unwrap().current.as_ref().unwrap().timestamp, 11);
    assert_eq!(p.checkpoint(), 3);
}

#[test]
fn history_projection_tracks_runs() {
    let mut p = UpdateWeatherHistoryProjection::new();
    let u = run_id("U");
    p.handle(1, &WeatherEvent::UpdateStarted { update_id: u.clone(), zones: vec![zone("otis")] }, 10);
    assert_eq!(p.fetch_update_status(&u).unwrap().state, UpdateWeatherStateDiscriminants::Active);
    p.handle(2, &obs("otis", 1), 11);
    p.handle(3, &WeatherEvent::UpdateLocationFailed { update_id: u.clone(), zone: zone("otis"), cause: "x".to_string() }, 12);
    let row = p.fetch_update_status(&u).unwrap();
    assert_eq!(row.state, UpdateWeatherStateDiscriminants::Active);
    assert_eq!(row.update_statuses.status_for(&zone("otis")), Some(LocationUpdateStatus::Failed));
    p.handle(4, &WeatherEvent::AlertsReviewed { update_id: u.clone() }, 13);
    let row = p.fetch_update_status(&u).unwrap();
    assert_eq!(row.state, UpdateWeatherStateDiscriminants::Finished);
    assert_eq!(row.last_updated_at, 13);
    // replaying the same deliveries changes nothing
    p.handle(2, &obs("otis", 1), 50);
    p.handle(4, &WeatherEvent::AlertsReviewed { update_id: u.clone() }, 51);
    assert_eq!(p.fetch_update_status(&u).unwrap().last_updated_at, 13);
    assert!(p.fetch_update_status(&run_id("V")).is_none());
}

#[test]
fn history_projection_starts_row_for_unexpected_event() {
    let mut p = UpdateWeatherHistoryProjection::new();
    let u = run_id("W");
    p.handle(7, &WeatherEvent::ForecastUpdated {
        zone: zone("neo"),
        update_id: u.clone(),
        forecast: Arc::new(ZoneForecast { zone_code: "neo".to_string(), updated: 1, periods: vec![] }),
    }, 5);
    let row = p.fetch_update_status(&u).unwrap();
    assert_eq!(row.state, UpdateWeatherStateDiscriminants::Active);
    assert!(matches!(row.update_statuses.status_for(&zone("neo")), Some(LocationUpdateStatus::InProgress(s)) if s.forecast && !s.observation));
}
