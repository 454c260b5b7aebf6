use std::sync::Arc;
use weather_saga::events::WeatherEvent;
use weather_saga::frame::WeatherFrame;
use weather_saga::ids::{LocationZoneCode, LocationZoneType, UpdateWeatherId, ZoneCodeError};
use weather_saga::orchestrator::{
    alert_notes, failure_notes, forecast_outcome, observation_outcome, plan_zone_fetches, FetchCommand, FetchKind,
    ProviderFailure,
};
use weather_saga::weather_data::{
    AlertCategory, AlertCertainty, AlertMessageType, AlertResponse, AlertSeverity, AlertStatus, AlertUrgency,
    WeatherAlert, ZoneForecast,
};
use weather_saga::zone::{LocationZoneAlert, NoteAlert};

fn zone(code: &str) -> LocationZoneCode {
    LocationZoneCode::new(code.to_string())
}

fn run_id() -> UpdateWeatherId {
    UpdateWeatherId::new("U".to_string())
}

fn alert(event: &str, affected: &[&str]) -> WeatherAlert {
    WeatherAlert {
        affected_zones: affected.iter().map(|z| zone(z)).collect(),
        status: AlertStatus::Actual,
        message_type: AlertMessageType::Alert,
        sent: 0,
        effective: 0,
        onset: None,
        expires: 3_600_000,
        ends: None,
        category: AlertCategory::Met,
        severity: AlertSeverity::Moderate,
        certainty: AlertCertainty::Likely,
        urgency: AlertUrgency::Expected,
        event: event.to_string(),
        headline: None,
        description: "wind".to_string(),
        instruction: None,
        response: AlertResponse::Monitor,
    }
}

#[test]
fn alert_transitions() {
    let mut state = LocationZoneAlert::new(zone("otis"));
    let activate = NoteAlert::new(zone("otis"), run_id(), Some(alert("Wind Advisory", &["otis"])));
    let events = activate.process(&state).unwrap();
    assert_eq!(events.len(), 1);
    assert!(matches!(&events[0], WeatherEvent::AlertActivated { zone, alert, .. } if zone.code == "otis" && alert.event == "Wind Advisory"));
    state.mutate(&events[0]);
    assert!(state.active_alert());

    let again = NoteAlert::new(zone("otis"), run_id(), Some(alert("Wind Advisory", &["otis"])));
    assert!(again.process(&state).unwrap().is_empty());

    let clear = NoteAlert::new(zone("otis"), run_id(), None);
    let events = clear.process(&state).unwrap();
    assert_eq!(events.len(), 1);
    assert!(matches!(&events[0], WeatherEvent::AlertDeactivated { zone, .. } if zone.code == "otis"));
    state.mutate(&events[0]);
    assert!(!state.active_alert());
    assert!(clear.process(&state).unwrap().is_empty());
}

#[test]
fn alert_slice_is_rebuilt_from_history() {
    let history = vec![
        WeatherEvent::AlertActivated { zone: zone("otis"), update_id: run_id(), alert: Arc::new(alert("A", &["otis"])) },
        WeatherEvent::AlertActivated { zone: zone("neo"), update_id: run_id(), alert: Arc::new(alert("B", &["neo"])) },
        WeatherEvent::AlertDeactivated { zone: zone("otis"), update_id: run_id() },
    ];
    assert!(!LocationZoneAlert::from_history(zone("otis"), &history).active_alert());
    assert!(LocationZoneAlert::from_history(zone("neo"), &history).active_alert());
}

#[test]
fn each_zone_gets_an_observation_and_a_forecast_fetch() {
    let fetches = plan_zone_fetches(&run_id(), &vec![zone("otis"), zone("neo")]);
    let plan: Vec<(String, FetchKind)> = fetches.iter().map(|f| (f.zone.code.clone(), f.kind)).collect();
    assert_eq!(plan, vec![
        ("otis".to_string(), FetchKind::Observation),
        ("otis".to_string(), FetchKind::Forecast),
        ("neo".to_string(), FetchKind::Observation),
        ("neo".to_string(), FetchKind::Forecast),
    ]);
}

#[test]
fn fetch_outcomes_become_commands() {
    let ok = observation_outcome(run_id(), zone("otis"), Ok(WeatherFrame { timestamp: 7, values: vec![] }));
    assert!(matches!(ok, Some(FetchCommand::Observe(c)) if c.zone.code == "otis" && c.weather.timestamp == 7));
    let failed = forecast_outcome(run_id(), zone("neo"), Err(ProviderFailure::Failed("provider down".to_string())));
    assert!(matches!(failed, Some(FetchCommand::Failure(c)) if c.zone.code == "neo" && c.cause == "provider down"));
    let cancelled = observation_outcome(run_id(), zone("neo"), Err(ProviderFailure::Cancelled));
    assert!(cancelled.is_none());
    let fc = forecast_outcome(run_id(), zone("neo"), Ok(ZoneForecast { zone_code: "neo".to_string(), updated: 3, periods: vec![] }));
    assert!(matches!(fc, Some(FetchCommand::Forecast(c)) if c.forecast.updated == 3));
}

#[test]
fn alerts_are_split_into_alerted_and_unaffected_zones() {
    let zones = vec![zone("otis"), zone("stella"), zone("neo"), zone("otis")];
    let alerts = vec![Arc::new(alert("A", &["stella", "elsewhere"])), Arc::new(alert("B", &["stella", "neo"]))];
    let notes = alert_notes(&run_id(), &zones, &alerts);
    let plan: Vec<(String, Option<String>)> =
        notes.iter().map(|n| (n.zone.code.clone(), n.alert.as_ref().map(|a| a.event.clone()))).collect();
    assert_eq!(plan, vec![
        ("stella".to_string(), Some("A".to_string())),
        ("stella".to_string(), Some("B".to_string())),
        ("neo".to_string(), Some("B".to_string())),
        ("otis".to_string(), None),
    ]);
    assert!(notes.iter().all(|n| n.update_id.id == "U"));
    let none = alert_notes(&run_id(), &vec![zone("otis")], &vec![]);
    assert_eq!(none.len(), 1);
    assert!(none[0].alert.is_none());
}

#[test]
fn failures_become_failure_notes() {
    let notes = failure_notes(&run_id(), vec![(zone("neo"), "append failed".to_string())]);
    assert_eq!(notes.len(), 1);
    assert_eq!(notes[0].zone.code, "neo");
    assert_eq!(notes[0].cause, "append failed");
}

#[test]
fn zone_codes_are_read_from_urls() {
    let (kind, code) = LocationZoneCode::from_url("https://api.weather.gov/zones/County/WAC033").unwrap();
    assert_eq!(kind, Some(LocationZoneType::County));
    assert_eq!(code.code, "WAC033");
    let (kind, code) = LocationZoneCode::from_url("https://api.weather.gov/zones/forecast/WAZ558").unwrap();
    assert_eq!(kind, None);
    assert_eq!(code.code, "WAZ558");
    assert_eq!(LocationZoneCode::parse("https://api.weather.gov/zones/forecast/WAZ558".to_string()).unwrap().code, "WAZ558");
    assert_eq!(LocationZoneCode::parse("WAZ558".to_string()).unwrap().code, "WAZ558");
    assert!(matches!(LocationZoneCode::parse("https://example.com".to_string()), Err(ZoneCodeError::UrlNotZoneIdentifier(_))));
    assert!(matches!(LocationZoneCode::from_url("not a url"), Err(ZoneCodeError::UrlParse(t)) if t == "not a url"));
    assert!(matches!(LocationZoneCode::parse("http//nope".to_string()), Err(ZoneCodeError::UrlParse(_))));
    assert!(matches!(LocationZoneCode::parse(String::new()), Err(ZoneCodeError::Empty)));
    assert!(matches!(LocationZoneCode::from_url("https://api.weather.gov/zones/County/"), Err(ZoneCodeError::UrlNotZoneIdentifier(_))));
}
