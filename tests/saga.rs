use std::sync::Arc;
use weather_saga::decision::{make_update_decision, make_zone_decision, DecisionError, RunStream, UpdateCommand, ZoneCommand};
use weather_saga::orchestrator::{alerts_outcome, ProviderFailure};
use weather_saga::command_result::{CommandResult, Either};
use weather_saga::event_log::EventLog;
use weather_saga::events::WeatherEvent;
use weather_saga::frame::WeatherFrame;
use weather_saga::ids::{LocationZoneCode, UpdateWeatherId};
use weather_saga::update::{
    NoteAlertsReviewed, NoteLocationUpdateFailure, StartUpdate, UpdateWeather, UpdateWeatherError,
};
use weather_saga::update_state::UpdateWeatherStateDiscriminants;
use weather_saga::weather_data::{ForecastDetail, ZoneForecast};
use weather_saga::zone::{NoteForecast, NoteObservation};

fn zone(code: &str) -> LocationZoneCode {
    LocationZoneCode::new(code.to_string())
}

fn run_id() -> UpdateWeatherId {
    UpdateWeatherId::new("U".to_string())
}

fn frame() -> Arc<WeatherFrame> {
    Arc::new(WeatherFrame { timestamp: 1_700_000_000_000, values: vec![] })
}

fn forecast(code: &str) -> Arc<ZoneForecast> {
    Arc::new(ZoneForecast {
        zone_code: code.to_string(),
        updated: 1_700_000_000_000,
        periods: vec![ForecastDetail { name: "Tonight".to_string(), forecast: "Clear".to_string() }],
    })
}

fn started(zones: &[&str]) -> WeatherEvent {
    WeatherEvent::UpdateStarted { update_id: run_id(), zones: zones.iter().map(|z| zone(z)).collect() }
}

fn observed(z: &str) -> WeatherEvent {
    WeatherEvent::ObservationUpdated { zone: zone(z), update_id: run_id(), weather: frame() }
}

fn forecasted(z: &str) -> WeatherEvent {
    WeatherEvent::ForecastUpdated { zone: zone(z), update_id: run_id(), forecast: forecast(z) }
}

fn reviewed() -> WeatherEvent {
    WeatherEvent::AlertsReviewed { update_id: run_id() }
}

fn failed(z: &str, cause: &str) -> WeatherEvent {
    WeatherEvent::UpdateLocationFailed { update_id: run_id(), zone: zone(z), cause: cause.to_string() }
}

fn state_after(events: Vec<WeatherEvent>) -> UpdateWeatherStateDiscriminants {
    UpdateWeather::from_history(run_id(), &events).state.discriminant()
}

#[test]
fn saga_completes_when_all_zones_report_and_alerts_are_reviewed() {
    let events = vec![
        started(&["otis", "stella", "neo"]),
        observed("otis"),
        forecasted("otis"),
        observed("stella"),
        forecasted("stella"),
        observed("neo"),
        forecasted("neo"),
        reviewed(),
    ];
    assert_eq!(state_after(events), UpdateWeatherStateDiscriminants::Finished);
}

#[test]
fn saga_completes_in_another_order() {
    let events = vec![
        started(&["otis", "stella", "neo"]),
        reviewed(),
        forecasted("neo"),
        observed("stella"),
        forecasted("otis"),
        forecasted("stella"),
        observed("otis"),
        observed("neo"),
    ];
    assert_eq!(state_after(events), UpdateWeatherStateDiscriminants::Finished);
}

#[test]
fn saga_completes_with_a_failed_zone() {
    let events = vec![
        started(&["otis", "stella", "neo"]),
        observed("otis"),
        forecasted("otis"),
        observed("stella"),
        forecasted("stella"),
        failed("neo", "provider down"),
        reviewed(),
    ];
    assert_eq!(state_after(events), UpdateWeatherStateDiscriminants::Finished);
}

#[test]
fn saga_stays_active_without_alert_review() {
    let events = vec![started(&["otis"]), observed("otis"), forecasted("otis")];
    assert_eq!(state_after(events), UpdateWeatherStateDiscriminants::Active);
}

#[test]
fn saga_stays_active_while_a_zone_lacks_its_forecast() {
    let events = vec![started(&["otis", "neo"]), observed("otis"), forecasted("otis"), observed("neo"), reviewed()];
    assert_eq!(state_after(events), UpdateWeatherStateDiscriminants::Active);
}

#[test]
fn events_of_other_runs_are_ignored() {
    let other = WeatherEvent::AlertsReviewed { update_id: UpdateWeatherId::new("V".to_string()) };
    let events = vec![started(&["otis"]), observed("otis"), forecasted("otis"), other];
    assert_eq!(state_after(events), UpdateWeatherStateDiscriminants::Active);
    assert_eq!(state_after(vec![]), UpdateWeatherStateDiscriminants::Quiescent);
}

#[test]
fn start_update_requires_zones() {
    assert!(matches!(StartUpdate::new(run_id(), vec![]), Err(UpdateWeatherError::NoLocations)));
    assert!(StartUpdate::for_zones(vec![zone("otis")]).is_ok());
}

#[test]
fn generated_run_ids_are_not_empty_and_differ() {
    let a = UpdateWeatherId::next_id();
    let b = UpdateWeatherId::next_id();
    assert!(!a.id.is_empty());
    assert_ne!(a.id, b.id);
}

#[test]
fn saga_commands_follow_the_state_machine() {
    let mut log: EventLog<WeatherEvent> = EventLog::new();
    let reviewed_cmd = UpdateCommand::AlertsReviewed(NoteAlertsReviewed(run_id()));
    let early = make_update_decision(&mut log, &reviewed_cmd);
    assert!(matches!(early, Err(DecisionError::Rejected(UpdateWeatherError::NotStarted(id, name)))
        if id.id == "U" && name == "NoteAlertsReviewed"));

    let start = UpdateCommand::Start(StartUpdate::new(run_id(), vec![zone("otis")]).unwrap());
    assert!(make_update_decision(&mut log, &start).is_ok());
    assert!(matches!(&log.events()[0], WeatherEvent::UpdateStarted { update_id, zones } if update_id.id == "U" && zones.len() == 1));
    let again = make_update_decision(&mut log, &start);
    assert!(matches!(again, Err(DecisionError::Rejected(UpdateWeatherError::AlreadyStarted(id, zones)))
        if id.id == "U" && zones.len() == 1));

    let obs = ZoneCommand::Observe(NoteObservation::new(zone("otis"), run_id(), WeatherFrame { timestamp: 1, values: vec![] }));
    assert!(make_zone_decision(&mut log, &obs).is_ok());
    let fc = ZoneCommand::Forecast(NoteForecast::new(zone("otis"), run_id(), ZoneForecast { zone_code: "otis".to_string(), updated: 2, periods: vec![] }));
    assert!(make_zone_decision(&mut log, &fc).is_ok());
    assert!(make_update_decision(&mut log, &reviewed_cmd).is_ok());
    assert_eq!(log.events().len(), 4);
    assert_eq!(
        UpdateWeather::from_history(run_id(), log.events()).state.discriminant(),
        UpdateWeatherStateDiscriminants::Finished
    );

    // once finished, every saga command of the run is refused and appends nothing
    let late_review = make_update_decision(&mut log, &reviewed_cmd);
    assert!(matches!(late_review, Err(DecisionError::Rejected(UpdateWeatherError::Finished(id, name)))
        if id.id == "U" && name == "NoteAlertsReviewed"));
    let failure = UpdateCommand::LocationFailed(NoteLocationUpdateFailure {
        update_id: run_id(),
        zone: zone("otis"),
        cause: "provider down".to_string(),
    });
    let late_failure = make_update_decision(&mut log, &failure);
    assert!(matches!(late_failure, Err(DecisionError::Rejected(UpdateWeatherError::Finished(_, name)))
        if name == "NoteLocationUpdateFailure"));
    assert!(matches!(make_update_decision(&mut log, &start), Err(DecisionError::Rejected(UpdateWeatherError::AlreadyStarted(_, _)))));
    assert_eq!(log.events().len(), 4);
}

#[test]
fn failure_note_carries_its_cause() {
    let mut log: EventLog<WeatherEvent> = EventLog::new();
    let v = log.version();
    log.append(&RunStream { update_id: run_id() }, v, vec![started(&["neo"])]).unwrap();
    let failure = UpdateCommand::LocationFailed(NoteLocationUpdateFailure {
        update_id: run_id(),
        zone: zone("neo"),
        cause: "provider down".to_string(),
    });
    assert!(make_update_decision(&mut log, &failure).is_ok());
    assert!(matches!(&log.events()[1], WeatherEvent::UpdateLocationFailed { zone, cause, .. }
        if zone.code == "neo" && cause == "provider down"));
}

#[test]
fn update_weather_without_zones_starts_nothing() {
    let mut log: EventLog<WeatherEvent> = EventLog::new();
    assert!(matches!(weather_saga::api::update_weather(&mut log, &vec![]), Ok(None)));
    assert!(log.events().is_empty());
    let id = weather_saga::api::update_weather(&mut log, &vec![zone("otis"), zone("neo")]).unwrap().unwrap();
    assert!(matches!(&log.events()[0], WeatherEvent::UpdateStarted { update_id, zones } if *update_id == id && zones.len() == 2));
    assert!(weather_saga::api::observe(&mut log, id.clone(), zone("otis"), Ok(WeatherFrame { timestamp: 1, values: vec![] })).is_ok());
    assert!(weather_saga::api::forecast(&mut log, id.clone(), zone("otis"), Ok(ZoneForecast { zone_code: "otis".to_string(), updated: 1, periods: vec![] })).is_ok());
    assert!(weather_saga::api::observe(&mut log, id.clone(), zone("neo"), Err(ProviderFailure::Cancelled)).is_ok());
    assert_eq!(log.events().len(), 3);
    assert!(weather_saga::api::alert(&mut log, id.clone(), zone("otis"), None).is_ok());
    assert!(weather_saga::api::forecast(&mut log, id.clone(), zone("neo"), Err(ProviderFailure::Failed("provider down".to_string()))).is_ok());
    assert!(matches!(&log.events()[3], WeatherEvent::UpdateLocationFailed { zone, cause, .. } if zone.code == "neo" && cause == "provider down"));
    assert!(weather_saga::api::note_alerts_updated(&mut log, id.clone()).is_ok());
    assert_eq!(log.events().len(), 5);
    assert_eq!(log.sequences(), &vec![1, 2, 3, 4, 5]);
    assert_eq!(UpdateWeather::from_history(id, log.events()).state.discriminant(), UpdateWeatherStateDiscriminants::Finished);
}

#[test]
fn failed_alerts_fetch_fails_every_zone_and_still_finishes() {
    let zones = vec![zone("otis"), zone("neo"), zone("otis")];
    let plan = alerts_outcome(&run_id(), &zones, Err(ProviderFailure::Failed("alerts down".to_string())));
    assert!(plan.notes.is_empty());
    let failed: Vec<String> = plan.failures.iter().map(|f| f.zone.code.clone()).collect();
    assert_eq!(failed, vec!["otis".to_string(), "neo".to_string()]);
    assert!(plan.failures.iter().all(|f| f.cause == "alerts down"));
    assert!(plan.review.is_some());

    let mut log: EventLog<WeatherEvent> = EventLog::new();
    log.append(&RunStream { update_id: run_id() }, 0, vec![started(&["otis", "neo"])]).unwrap();
    for f in plan.failures {
        make_update_decision(&mut log, &UpdateCommand::LocationFailed(f)).unwrap();
    }
    make_update_decision(&mut log, &UpdateCommand::AlertsReviewed(plan.review.unwrap())).unwrap();
    assert_eq!(state_after(log.events().iter().map(copy).collect()), UpdateWeatherStateDiscriminants::Finished);

    let cancelled = alerts_outcome(&run_id(), &zones, Err(ProviderFailure::Cancelled));
    assert!(cancelled.notes.is_empty() && cancelled.failures.is_empty() && cancelled.review.is_none());
    let fine = alerts_outcome(&run_id(), &zones, Ok(vec![]));
    assert_eq!(fine.notes.len(), 2);
    assert!(fine.failures.is_empty() && fine.review.is_some());
}

fn copy(e: &WeatherEvent) -> WeatherEvent {
    match e {
        WeatherEvent::UpdateStarted { update_id, zones } => WeatherEvent::UpdateStarted { update_id: update_id.clone(), zones: zones.clone() },
        WeatherEvent::AlertsReviewed { update_id } => WeatherEvent::AlertsReviewed { update_id: update_id.clone() },
        WeatherEvent::UpdateLocationFailed { update_id, zone, cause } => WeatherEvent::UpdateLocationFailed { update_id: update_id.clone(), zone: zone.clone(), cause: cause.clone() },
        WeatherEvent::ObservationUpdated { zone, update_id, weather } => WeatherEvent::ObservationUpdated { zone: zone.clone(), update_id: update_id.clone(), weather: weather.clone() },
        WeatherEvent::ForecastUpdated { zone, update_id, forecast } => WeatherEvent::ForecastUpdated { zone: zone.clone(), update_id: update_id.clone(), forecast: forecast.clone() },
        WeatherEvent::AlertActivated { zone, update_id, alert } => WeatherEvent::AlertActivated { zone: zone.clone(), update_id: update_id.clone(), alert: alert.clone() },
        WeatherEvent::AlertDeactivated { zone, update_id } => WeatherEvent::AlertDeactivated { zone: zone.clone(), update_id: update_id.clone() },
    }
}

#[test]
fn command_results_map_with_either() {
    let ok: CommandResult<&str, u32> = CommandResult::Accepted("foo");
    assert_eq!(ok.map_or_else(|_| 42, |v| v.len()), 3);
    let err: CommandResult<&str, u32> = CommandResult::Failed(7);
    assert_eq!(err.map_or_else(|e| match e { Either::Left(_) => 1, Either::Right(n) => n as usize * 2 }, |v| v.len()), 14);
    let rejected: CommandResult<usize, &str> = CommandResult::Rejected("no".to_string());
    assert_eq!(rejected.unwrap_or_else(|e| match e { Either::Left(m) => m.len() + 1, Either::Right(r) => r.len() * 2 }), 3);
    assert_eq!(CommandResult::<usize, &str>::Failed("foo").unwrap_or_else(|e| match e { Either::Left(m) => m.len() + 1, Either::Right(r) => r.len() * 2 }), 6);
    assert_eq!(CommandResult::<usize, &str>::Accepted(2).unwrap_or_else(|_| 0), 2);
}

#[test]
fn alerts_are_reviewed_once_and_failures_need_a_zone_of_the_run() {
    let mut log: EventLog<WeatherEvent> = EventLog::new();
    log.append(&RunStream { update_id: run_id() }, 0, vec![started(&["otis"])]).unwrap();
    let review = UpdateCommand::AlertsReviewed(NoteAlertsReviewed(run_id()));
    make_update_decision(&mut log, &review).unwrap();
    assert_eq!(log.events().len(), 2);
    make_update_decision(&mut log, &review).unwrap();
    assert_eq!(log.events().len(), 2);
    let outside = UpdateCommand::LocationFailed(NoteLocationUpdateFailure {
        update_id: run_id(),
        zone: zone("neo"),
        cause: "provider down".to_string(),
    });
    assert!(matches!(make_update_decision(&mut log, &outside),
        Err(DecisionError::Rejected(UpdateWeatherError::NotInRun(id, z))) if id.id == "U" && z.code == "neo"));
    assert_eq!(log.events().len(), 2);
}

#[test]
fn events_for_zones_outside_the_run_do_not_block_it() {
    let events = vec![started(&["otis"]), failed("otis", "provider down"), observed("neo"), reviewed()];
    assert_eq!(state_after(events), UpdateWeatherStateDiscriminants::Finished);
    let events = vec![started(&["otis"]), observed("neo"), failed("neo", "x"), observed("otis"), forecasted("otis"), reviewed()];
    assert_eq!(state_after(events), UpdateWeatherStateDiscriminants::Finished);
}
