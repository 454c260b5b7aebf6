use vstd::prelude::*;
use crate::decision::{
    DecisionError, RegistrarCommand, UpdateCommand, ZoneCommand, make_registrar_decision, make_update_decision,
    make_zone_decision, registrar_outcome, update_decided, zone_decided,
};
use crate::event_log::{AppendError, EventLog, fresh_sequences};
use crate::events::{RegistrarEvent, WeatherEvent, clone_zones};
use crate::frame::WeatherFrame;
use crate::ids::{LocationZoneCode, UpdateWeatherId};
use crate::registrar::{ClearZoneMonitoring, IgnoreForecastZone, MonitorForecastZone, RegistrarError, registrar_replay};
use crate::update::{NoteAlertsReviewed, NoteLocationUpdateFailure, StartUpdate, UpdateWeatherError, run_slice};
use crate::update_state::{SagaModel, saga_replay};
use crate::weather_data::{WeatherAlert, ZoneForecast};
use crate::zone::{LocationZoneError, NoteAlert, NoteForecast, NoteObservation, alert_replay};
use crate::orchestrator::{FetchCommand, ProviderFailure, forecast_outcome, observation_outcome};

verus! {

/// What a registrar command did to the log, given the history it was decided on.
pub open spec fn registrar_made(
    cmd: RegistrarCommand,
    before: EventLog<RegistrarEvent>,
    after: EventLog<RegistrarEvent>,
    r: Result<(), DecisionError<RegistrarError>>,
) -> bool {
    let outcome = registrar_outcome(cmd, registrar_replay(before.spec_events()));
    match r {
        Ok(_) => outcome is Ok && after.spec_events() == before.spec_events() + outcome->Ok_0
            && after.spec_sequences() == before.spec_sequences() + fresh_sequences(
            before.spec_version(),
            outcome->Ok_0.len(),
        ),
        Err(DecisionError::Rejected(e)) => outcome == Err::<Seq<RegistrarEvent>, RegistrarError>(e) && after == before,
        Err(DecisionError::Append(e)) => outcome is Ok && e == AppendError::Exhausted && before.spec_version()
            == u64::MAX && after == before,
    }
}

fn registrar(log: &mut EventLog<RegistrarEvent>, cmd: RegistrarCommand) -> (r: Result<(), DecisionError<RegistrarError>>)
    requires
        old(log).wf(),
    ensures
        final(log).wf(),
        registrar_made(cmd, *old(log), *final(log), r),
{
    match make_registrar_decision(log, &cmd) {
        Ok(_) => Ok(()),
        Err(e) => Err(e),
    }
}

/// Starts monitoring `zone`; refused if it is monitored already.
pub fn monitor_forecast_zone(log: &mut EventLog<RegistrarEvent>, zone: LocationZoneCode) -> (r: Result<
    (),
    DecisionError<RegistrarError>,
>)
    requires
        old(log).wf(),
    ensures
        final(log).wf(),
        registrar_made(RegistrarCommand::Monitor(MonitorForecastZone(zone)), *old(log), *final(log), r),
{
    registrar(log, RegistrarCommand::Monitor(MonitorForecastZone::new(zone)))
}

/// Stops monitoring `zone`; nothing happens if it is not monitored.
pub fn ignore_forecast_zone(log: &mut EventLog<RegistrarEvent>, zone: LocationZoneCode) -> (r: Result<
    (),
    DecisionError<RegistrarError>,
>)
    requires
        old(log).wf(),
    ensures
        final(log).wf(),
        registrar_made(RegistrarCommand::Ignore(IgnoreForecastZone(zone)), *old(log), *final(log), r),
{
    registrar(log, RegistrarCommand::Ignore(IgnoreForecastZone::new(zone)))
}

/// Stops monitoring every zone.
pub fn clear_monitoring(log: &mut EventLog<RegistrarEvent>) -> (r: Result<(), DecisionError<RegistrarError>>)
    requires
        old(log).wf(),
    ensures
        final(log).wf(),
        registrar_made(RegistrarCommand::Clear(ClearZoneMonitoring), *old(log), *final(log), r),
{
    registrar(log, RegistrarCommand::Clear(ClearZoneMonitoring))
}

/// What a saga command did to the log, given the run's state before it.
pub open spec fn update_made(
    cmd: UpdateCommand,
    before: EventLog<WeatherEvent>,
    after: EventLog<WeatherEvent>,
    ok: bool,
    err: Option<DecisionError<UpdateWeatherError>>,
) -> bool {
    let s = saga_replay(SagaModel::Quiescent, run_slice(before.spec_events(), cmd.spec_update_id()@));
    if ok {
        exists|evs: Seq<WeatherEvent>|
            update_decided(cmd, s, Ok(evs)) && after.spec_events() == before.spec_events() + evs
                && after.spec_sequences() == before.spec_sequences() + fresh_sequences(before.spec_version(), evs.len())
    } else {
        match err {
            Some(DecisionError::Rejected(e)) => update_decided(cmd, s, Err(e)) && after == before,
            Some(DecisionError::Append(e)) => e == AppendError::Exhausted && before.spec_version() == u64::MAX
                && after == before,
            None => false,
        }
    }
}

fn update(log: &mut EventLog<WeatherEvent>, cmd: UpdateCommand) -> (r: Result<(), DecisionError<UpdateWeatherError>>)
    requires
        old(log).wf(),
    ensures
        final(log).wf(),
        update_made(cmd, *old(log), *final(log), r is Ok, match r {
            Ok(_) => None,
            Err(e) => Some(e),
        }),
{
    match make_update_decision(log, &cmd) {
        Ok(_) => Ok(()),
        Err(e) => Err(e),
    }
}

/// What starting a run over `zones` did to the log: nothing (and `None`) for no
/// zones; otherwise the run's `UpdateStarted` appended under the returned fresh id,
/// or the log unchanged and the refusal.
pub open spec fn update_weather_made(
    zones: Seq<LocationZoneCode>,
    before: EventLog<WeatherEvent>,
    after: EventLog<WeatherEvent>,
    r: Result<Option<UpdateWeatherId>, DecisionError<UpdateWeatherError>>,
) -> bool {
    &&& zones.len() == 0 ==> r == Ok::<Option<UpdateWeatherId>, DecisionError<UpdateWeatherError>>(None)
        && after == before
    &&& zones.len() > 0 ==> !(r matches Ok(None))
    &&& r matches Ok(Some(id)) ==> after.spec_events().len() == before.spec_events().len() + 1
        && after.spec_events().subrange(0, before.spec_events().len() as int) == before.spec_events()
        && match after.spec_events().last() {
            WeatherEvent::UpdateStarted { update_id, zones: zs } => update_id == id && zs@ == zones,
            _ => false,
        }
        && after.spec_sequences() == before.spec_sequences().push((before.spec_version() + 1) as u64)
    &&& r is Err ==> after == before
    &&& r is Err ==> match r->Err_0 {
        DecisionError::Rejected(e) => match e {
            UpdateWeatherError::AlreadyStarted(id, zs) => zs@ == zones && run_slice(before.spec_events(), id@).len()
                > 0,
            _ => false,
        },
        DecisionError::Append(e) => e == AppendError::Exhausted && before.spec_version() == u64::MAX,
    }
}

/// Starts a run over `zones` under a fresh id: no run (and `None`) when `zones` is
/// empty; otherwise the run's id, once its `UpdateStarted` is in the log.
pub fn update_weather(log: &mut EventLog<WeatherEvent>, zones: &Vec<LocationZoneCode>) -> (r: Result<
    Option<UpdateWeatherId>,
    DecisionError<UpdateWeatherError>,
>)
    requires
        old(log).wf(),
    ensures
        final(log).wf(),
        update_weather_made(zones@, *old(log), *final(log), r),
{
    if zones.len() == 0 {
        return Ok(None);
    }
    let cmd = match StartUpdate::for_zones(clone_zones(zones)) {
        Ok(c) => c,
        Err(e) => return Err(DecisionError::Rejected(e)),
    };
    let id = cmd.update_id.clone();
    let ghost c = cmd;
    match update(log, UpdateCommand::Start(cmd)) {
        Ok(_) => {
            proof {
                let s = saga_replay(SagaModel::Quiescent, run_slice(old(log).spec_events(), c.update_id@));
                let evs = choose|evs: Seq<WeatherEvent>|
                    update_decided(UpdateCommand::Start(c), s, Ok(evs)) && log.spec_events() == old(log).spec_events() + evs;
                assert(log.spec_events().subrange(0, old(log).spec_events().len() as int) =~= old(log).spec_events());
                assert(log.spec_events().last() == evs[0]);
                assert(fresh_sequences(old(log).spec_version(), evs.len()) =~= seq![(old(log).spec_version() + 1) as u64]);
                assert(old(log).spec_sequences() + seq![(old(log).spec_version() + 1) as u64] =~= old(log).spec_sequences().push((old(log).spec_version() + 1) as u64));
            }
            Ok(Some(id))
        },
        Err(e) => {
            proof {
                if run_slice(old(log).spec_events(), c.update_id@).len() == 0 {
                    assert(run_slice(old(log).spec_events(), c.update_id@) =~= Seq::<WeatherEvent>::empty());
                    assert(saga_replay(SagaModel::Quiescent, Seq::<WeatherEvent>::empty()) == SagaModel::Quiescent);
                }
            }
            Err(e)
        },
    }
}

/// Notes that run `update_id` reviewed its alerts.
pub fn note_alerts_updated(log: &mut EventLog<WeatherEvent>, update_id: UpdateWeatherId) -> (r: Result<
    (),
    DecisionError<UpdateWeatherError>,
>)
    requires
        old(log).wf(),
    ensures
        final(log).wf(),
        update_made(UpdateCommand::AlertsReviewed(NoteAlertsReviewed(update_id)), *old(log), *final(log), r is Ok, match r {
            Ok(_) => None,
            Err(e) => Some(e),
        }),
{
    update(log, UpdateCommand::AlertsReviewed(NoteAlertsReviewed(update_id)))
}

/// Notes that `zone` could not be updated in run `update_id`, for `cause`.
pub fn note_zone_update_failure(
    log: &mut EventLog<WeatherEvent>,
    update_id: UpdateWeatherId,
    zone: LocationZoneCode,
    cause: String,
) -> (r: Result<(), DecisionError<UpdateWeatherError>>)
    requires
        old(log).wf(),
    ensures
        final(log).wf(),
        update_made(
            UpdateCommand::LocationFailed(NoteLocationUpdateFailure { update_id, zone, cause }),
            *old(log),
            *final(log),
            r is Ok,
            match r {
                Ok(_) => None,
                Err(e) => Some(e),
            },
        ),
{
    update(log, UpdateCommand::LocationFailed(NoteLocationUpdateFailure { update_id, zone, cause }))
}

/// What a zone command did to the log.
pub open spec fn zone_made(
    cmd: ZoneCommand,
    before: EventLog<WeatherEvent>,
    after: EventLog<WeatherEvent>,
    r: Result<(), DecisionError<LocationZoneError>>,
) -> bool {
    let alert = alert_replay(before.spec_events(), cmd.spec_zone()@);
    match r {
        Ok(_) => exists|evs: Seq<WeatherEvent>|
            zone_decided(cmd, alert, evs) && after.spec_events() == before.spec_events() + evs
                && after.spec_sequences() == before.spec_sequences() + fresh_sequences(before.spec_version(), evs.len()),
        Err(DecisionError::Rejected(_)) => false,
        Err(DecisionError::Append(e)) => e == AppendError::Exhausted && before.spec_version() == u64::MAX
            && after == before,
    }
}

fn zone_command(log: &mut EventLog<WeatherEvent>, cmd: ZoneCommand) -> (r: Result<(), DecisionError<LocationZoneError>>)
    requires
        old(log).wf(),
    ensures
        final(log).wf(),
        zone_made(cmd, *old(log), *final(log), r),
{
    match make_zone_decision(log, &cmd) {
        Ok(_) => Ok(()),
        Err(e) => Err(e),
    }
}

/// Why a fetch's command made no events.
#[derive(Debug)]
pub enum FetchError {
    Zone(DecisionError<LocationZoneError>),
    Update(DecisionError<UpdateWeatherError>),
}

/// What a fetch's command did to the log.
pub open spec fn fetch_made(
    cmd: FetchCommand,
    before: EventLog<WeatherEvent>,
    after: EventLog<WeatherEvent>,
    r: Result<(), FetchError>,
) -> bool {
    match cmd {
        FetchCommand::Observe(c) => match r {
            Ok(_) => zone_made(ZoneCommand::Observe(c), before, after, Ok(())),
            Err(FetchError::Zone(e)) => zone_made(ZoneCommand::Observe(c), before, after, Err(e)),
            Err(FetchError::Update(_)) => false,
        },
        FetchCommand::Forecast(c) => match r {
            Ok(_) => zone_made(ZoneCommand::Forecast(c), before, after, Ok(())),
            Err(FetchError::Zone(e)) => zone_made(ZoneCommand::Forecast(c), before, after, Err(e)),
            Err(FetchError::Update(_)) => false,
        },
        FetchCommand::Failure(c) => match r {
            Ok(_) => update_made(UpdateCommand::LocationFailed(c), before, after, true, None),
            Err(FetchError::Update(e)) => update_made(UpdateCommand::LocationFailed(c), before, after, false, Some(e)),
            Err(FetchError::Zone(_)) => false,
        },
    }
}

/// Issues the command a finished fetch leads to.
pub fn apply_fetch_command(log: &mut EventLog<WeatherEvent>, cmd: FetchCommand) -> (r: Result<(), FetchError>)
    requires
        old(log).wf(),
    ensures
        final(log).wf(),
        fetch_made(cmd, *old(log), *final(log), r),
{
    match cmd {
        FetchCommand::Observe(c) => match zone_command(log, ZoneCommand::Observe(c)) {
            Ok(_) => Ok(()),
            Err(e) => Err(FetchError::Zone(e)),
        },
        FetchCommand::Forecast(c) => match zone_command(log, ZoneCommand::Forecast(c)) {
            Ok(_) => Ok(()),
            Err(e) => Err(FetchError::Zone(e)),
        },
        FetchCommand::Failure(c) => match update(log, UpdateCommand::LocationFailed(c)) {
            Ok(_) => Ok(()),
            Err(e) => Err(FetchError::Update(e)),
        },
    }
}

/// Records the outcome of `zone`'s observation fetch in run `update_id`: the
/// observation; a provider failure as the zone's failure in the run; after a
/// cancellation, nothing.
pub fn observe(
    log: &mut EventLog<WeatherEvent>,
    update_id: UpdateWeatherId,
    zone: LocationZoneCode,
    fetched: Result<WeatherFrame, ProviderFailure>,
) -> (r: Result<(), FetchError>)
    requires
        old(log).wf(),
    ensures
        final(log).wf(),
        match fetched {
            Ok(frame) => exists|c: NoteObservation|
                c.zone == zone && c.update_id == update_id && *c.weather == frame && fetch_made(
                    FetchCommand::Observe(c),
                    *old(log),
                    *final(log),
                    r,
                ),
            Err(ProviderFailure::Failed(msg)) => fetch_made(
                FetchCommand::Failure(NoteLocationUpdateFailure { update_id, zone, cause: msg }),
                *old(log),
                *final(log),
                r,
            ),
            Err(ProviderFailure::Cancelled) => r is Ok && *final(log) == *old(log),
        },
{
    let ghost f = fetched;
    match observation_outcome(update_id, zone, fetched) {
        None => Ok(()),
        Some(cmd) => {
            let ghost g = cmd;
            let r = apply_fetch_command(log, cmd);
            proof {
                match f {
                    Ok(_) => {
                        let c = g->Observe_0;
                        assert(fetch_made(FetchCommand::Observe(c), *old(log), *log, r));
                    },
                    _ => {},
                }
            }
            r
        },
    }
}

/// Records the outcome of `zone`'s forecast fetch in run `update_id`, as `observe`
/// does for an observation.
pub fn forecast(
    log: &mut EventLog<WeatherEvent>,
    update_id: UpdateWeatherId,
    zone: LocationZoneCode,
    fetched: Result<ZoneForecast, ProviderFailure>,
) -> (r: Result<(), FetchError>)
    requires
        old(log).wf(),
    ensures
        final(log).wf(),
        match fetched {
            Ok(zone_forecast) => exists|c: NoteForecast|
                c.zone == zone && c.update_id == update_id && *c.forecast == zone_forecast && fetch_made(
                    FetchCommand::Forecast(c),
                    *old(log),
                    *final(log),
                    r,
                ),
            Err(ProviderFailure::Failed(msg)) => fetch_made(
                FetchCommand::Failure(NoteLocationUpdateFailure { update_id, zone, cause: msg }),
                *old(log),
                *final(log),
                r,
            ),
            Err(ProviderFailure::Cancelled) => r is Ok && *final(log) == *old(log),
        },
{
    let ghost f = fetched;
    match forecast_outcome(update_id, zone, fetched) {
        None => Ok(()),
        Some(cmd) => {
            let ghost g = cmd;
            let r = apply_fetch_command(log, cmd);
            proof {
                match f {
                    Ok(_) => {
                        let c = g->Forecast_0;
                        assert(fetch_made(FetchCommand::Forecast(c), *old(log), *log, r));
                    },
                    _ => {},
                }
            }
            r
        },
    }
}

/// Records `zone`'s current alert (or that it has none) in run `update_id`.
pub fn alert(
    log: &mut EventLog<WeatherEvent>,
    update_id: UpdateWeatherId,
    zone: LocationZoneCode,
    current_alert: Option<WeatherAlert>,
) -> (r: Result<(), DecisionError<LocationZoneError>>)
    requires
        old(log).wf(),
    ensures
        final(log).wf(),
        exists|c: NoteAlert|
            c.zone == zone && c.update_id == update_id && (c.alert is Some <==> current_alert is Some) && (current_alert is Some
                ==> *c.alert->Some_0 == current_alert->Some_0) && zone_made(ZoneCommand::Alert(c), *old(log), *final(log), r),
{
    let c = NoteAlert::new(zone, update_id, current_alert);
    let ghost g = c;
    let r = zone_command(log, ZoneCommand::Alert(c));
    assert(zone_made(ZoneCommand::Alert(g), *old(log), *log, r));
    r
}

/// Registrar services that start no run.
#[derive(Debug, Clone, Copy, PartialEq, Eq, Structural)]
pub struct HappyPathServices;

/// Registrar services that start runs on the log.
#[derive(Debug, Clone, Copy, PartialEq, Eq, Structural)]
pub struct FullRegistrarServices;

/// How the registrar has weather updated for its zones.
#[derive(Debug, Clone, Copy, PartialEq, Eq, Structural)]
pub enum RegistrarServices {
    Full(FullRegistrarServices),
    HappyPath(HappyPathServices),
}

impl RegistrarServices {
    pub fn full() -> (r: Self)
        ensures
            r is Full,
    {
        RegistrarServices::Full(FullRegistrarServices)
    }

    pub fn happy() -> (r: Self)
        ensures
            r is HappyPath,
    {
        RegistrarServices::HappyPath(HappyPathServices)
    }

    /// Starts a run over `zones`: the full services as `update_weather` does; the
    /// happy-path services start none and answer `None`.
    pub fn update_weather(&self, zones: &Vec<LocationZoneCode>, log: &mut EventLog<WeatherEvent>) -> (r: Result<
        Option<UpdateWeatherId>,
        DecisionError<UpdateWeatherError>,
    >)
        requires
            old(log).wf(),
        ensures
            final(log).wf(),
            *self is Full ==> update_weather_made(zones@, *old(log), *final(log), r),
            *self is HappyPath ==> r == Ok::<Option<UpdateWeatherId>, DecisionError<UpdateWeatherError>>(None)
                && *final(log) == *old(log),
    {
        match self {
            RegistrarServices::Full(_) => update_weather(log, zones),
            RegistrarServices::HappyPath(_) => Ok(None),
        }
    }
}

} // verus!
