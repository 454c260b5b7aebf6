use weather_saga::decision::{make_registrar_decision, DecisionError, RegistrarCommand, RegistrarStream};
use weather_saga::event_log::EventLog;
use weather_saga::api::RegistrarServices;
use weather_saga::events::{RegistrarEvent, WeatherEvent};
use weather_saga::ids::LocationZoneCode;
use weather_saga::registrar::{
    ClearZoneMonitoring, IgnoreForecastZone, MonitorForecastZone, MonitoredLocationZones, Registrar,
    RegistrarError,
};

fn zone(code: &str) -> LocationZoneCode {
    LocationZoneCode::new(code.to_string())
}

fn given(events: Vec<RegistrarEvent>) -> EventLog<RegistrarEvent> {
    let mut log = EventLog::new();
    let version = log.version();
    log.append(&RegistrarStream, version, events).expect("seed history");
    log
}

/// Runs `command` against `history` and returns the events it appended.
fn when(history: Vec<RegistrarEvent>, command: RegistrarCommand) -> Result<Vec<RegistrarEvent>, RegistrarError> {
    let mut log = given(history);
    let before = log.events().len();
    match make_registrar_decision(&mut log, &command) {
        Ok(_) => Ok(log.events()[before..].iter().map(copy_event).collect()),
        Err(DecisionError::Rejected(e)) => Err(e),
        Err(DecisionError::Append(e)) => panic!("append failed: {e:?}"),
    }
}

fn copy_event(e: &RegistrarEvent) -> RegistrarEvent {
    match e {
        RegistrarEvent::ForecastZoneAdded { zone } => RegistrarEvent::ForecastZoneAdded { zone: zone.clone() },
        RegistrarEvent::ForecastZoneRemoved { zone } => RegistrarEvent::ForecastZoneRemoved { zone: zone.clone() },
        RegistrarEvent::AllForecastZonesRemoved => RegistrarEvent::AllForecastZonesRemoved,
    }
}

#[test]
fn it_adds_zone_to_monitor() {
    let events = when(vec![], RegistrarCommand::Monitor(MonitorForecastZone::new(zone("otis")))).unwrap();
    assert_eq!(events, vec![RegistrarEvent::ForecastZoneAdded { zone: zone("otis") }]);
}

#[test]
fn it_should_not_add_zone_that_is_already_monitored() {
    let err = when(
        vec![RegistrarEvent::ForecastZoneAdded { zone: zone("otis") }],
        RegistrarCommand::Monitor(MonitorForecastZone::new(zone("otis"))),
    )
    .unwrap_err();
    assert!(matches!(err, RegistrarError::LocationZoneAlreadyMonitored(z) if z == zone("otis")));
}

#[test]
fn it_removes_zone_from_monitoring() {
    let events = when(
        vec![RegistrarEvent::ForecastZoneAdded { zone: zone("otis") }],
        RegistrarCommand::Ignore(IgnoreForecastZone::new(zone("otis"))),
    )
    .unwrap();
    assert_eq!(events, vec![RegistrarEvent::ForecastZoneRemoved { zone: zone("otis") }]);
}

#[test]
fn it_should_ignore_request_to_remove_zone_that_is_not_monitored() {
    let events = when(
        vec![RegistrarEvent::ForecastZoneAdded { zone: zone("otis") }],
        RegistrarCommand::Ignore(IgnoreForecastZone::new(zone("stella"))),
    )
    .unwrap();
    assert_eq!(events, vec![]);
}

#[test]
fn it_should_clear_all_zone_monitoring() {
    let events = when(
        vec![
            RegistrarEvent::ForecastZoneAdded { zone: zone("otis") },
            RegistrarEvent::ForecastZoneAdded { zone: zone("stella") },
            RegistrarEvent::ForecastZoneAdded { zone: zone("neo") },
        ],
        RegistrarCommand::Clear(ClearZoneMonitoring),
    )
    .unwrap();
    assert_eq!(events, vec![RegistrarEvent::AllForecastZonesRemoved]);
}

#[test]
fn add_then_add_again_is_refused() {
    let mut log = given(vec![]);
    let cmd = RegistrarCommand::Monitor(MonitorForecastZone::new(zone("otis")));
    assert!(make_registrar_decision(&mut log, &cmd).is_ok());
    assert_eq!(log.events(), &vec![RegistrarEvent::ForecastZoneAdded { zone: zone("otis") }]);
    let again = make_registrar_decision(&mut log, &cmd);
    assert!(matches!(again, Err(DecisionError::Rejected(RegistrarError::LocationZoneAlreadyMonitored(z))) if z == zone("otis")));
    assert_eq!(log.events().len(), 1);
}

#[test]
fn clear_on_empty_registrar_makes_no_event() {
    let events = when(vec![], RegistrarCommand::Clear(ClearZoneMonitoring)).unwrap();
    assert_eq!(events, vec![]);
}

#[test]
fn registrar_state_replays_history() {
    let history = vec![
        RegistrarEvent::ForecastZoneAdded { zone: zone("otis") },
        RegistrarEvent::ForecastZoneAdded { zone: zone("stella") },
        RegistrarEvent::ForecastZoneRemoved { zone: zone("otis") },
    ];
    let reg = Registrar::from_history(&history);
    assert!(!reg.location_codes.contains(&zone("otis")));
    assert!(reg.location_codes.contains(&zone("stella")));
    let cleared = Registrar::from_history(&vec![
        RegistrarEvent::ForecastZoneAdded { zone: zone("otis") },
        RegistrarEvent::AllForecastZonesRemoved,
    ]);
    assert!(cleared.location_codes.is_empty());
}

#[test]
fn monitored_view_follows_registrar_stream() {
    let mut view = MonitoredLocationZones::new();
    view.handle(&RegistrarEvent::ForecastZoneAdded { zone: zone("otis") });
    view.handle(&RegistrarEvent::ForecastZoneAdded { zone: zone("stella") });
    view.handle(&RegistrarEvent::ForecastZoneAdded { zone: zone("otis") });
    let zones: Vec<String> = view.monitored().into_iter().map(|z| z.code).collect();
    assert_eq!(zones, vec!["otis".to_string(), "stella".to_string()]);
    view.handle(&RegistrarEvent::ForecastZoneRemoved { zone: zone("otis") });
    let zones: Vec<String> = view.monitored().into_iter().map(|z| z.code).collect();
    assert_eq!(zones, vec!["stella".to_string()]);
    view.handle(&RegistrarEvent::AllForecastZonesRemoved);
    assert!(view.monitored().is_empty());
}

#[test]
fn registrar_api_monitors_and_clears() {
    let mut log: EventLog<RegistrarEvent> = EventLog::new();
    assert!(weather_saga::api::monitor_forecast_zone(&mut log, zone("otis")).is_ok());
    assert!(matches!(
        weather_saga::api::monitor_forecast_zone(&mut log, zone("otis")),
        Err(DecisionError::Rejected(RegistrarError::LocationZoneAlreadyMonitored(_)))
    ));
    assert!(weather_saga::api::ignore_forecast_zone(&mut log, zone("stella")).is_ok());
    assert_eq!(log.events().len(), 1);
    assert!(weather_saga::api::clear_monitoring(&mut log).is_ok());
    assert_eq!(log.events().last(), Some(&RegistrarEvent::AllForecastZonesRemoved));
    assert!(weather_saga::api::clear_monitoring(&mut log).is_ok());
    assert_eq!(log.events().len(), 2);
}

#[test]
fn registrar_services_start_runs_only_when_full() {
    let mut log: EventLog<WeatherEvent> = EventLog::new();
    let zones = vec![zone("otis")];
    assert!(matches!(RegistrarServices::happy().update_weather(&zones, &mut log), Ok(None)));
    assert!(log.events().is_empty());
    assert!(matches!(RegistrarServices::full().update_weather(&zones, &mut log), Ok(Some(_))));
    assert_eq!(log.events().len(), 1);
    assert!(matches!(RegistrarServices::full().update_weather(&vec![], &mut log), Ok(None)));
    assert_eq!(weather_saga::registrar::SingletonIdGenerator::next_id_rep(), "<singleton>");
}

#[test]
fn monitored_view_replayed_twice_matches_once() {
    let events = vec![
        RegistrarEvent::ForecastZoneRemoved { zone: zone("otis") },
        RegistrarEvent::ForecastZoneAdded { zone: zone("otis") },
        RegistrarEvent::ForecastZoneAdded { zone: zone("neo") },
        RegistrarEvent::ForecastZoneRemoved { zone: zone("stella") },
    ];
    let mut once = MonitoredLocationZones::new();
    let mut twice = MonitoredLocationZones::new();
    for v in [&mut once, &mut twice] {
        v.handle(&RegistrarEvent::ForecastZoneAdded { zone: zone("stella") });
        v.handle(&RegistrarEvent::ForecastZoneAdded { zone: zone("zed") });
    }
    for e in &events {
        once.handle(e);
        twice.handle(e);
    }
    for e in &events {
        twice.handle(e);
    }
    let codes = |v: &MonitoredLocationZones| {
        let mut c: Vec<String> = v.monitored().into_iter().map(|z| z.code).collect();
        c.sort();
        c
    };
    assert_eq!(codes(&once), codes(&twice));
    assert_eq!(codes(&once), vec!["neo".to_string(), "otis".to_string(), "zed".to_string()]);
}
