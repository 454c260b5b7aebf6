use vstd::prelude::*;
use crate::event_log::{AppendError, EventLog, StreamFilter, fresh_sequences};
use crate::events::{RegistrarEvent, WeatherEvent};
use crate::ids::{LocationZoneCode, UpdateWeatherId};
use crate::registrar::{
    ClearZoneMonitoring, IgnoreForecastZone, MonitorForecastZone, Registrar, RegistrarError,
    registrar_replay,
};
use crate::update::{
    NoteAlertsReviewed, NoteLocationUpdateFailure, StartUpdate, UpdateWeather, UpdateWeatherError,
    alerts_reviewed_decided, failure_decided, run_slice, seq_result, start_update_decided,
};
use crate::update_state::{SagaModel, saga_replay};
use crate::zone::{
    LocationZoneAlert, LocationZoneError, LocationZoneForecast, LocationZoneWeather, NoteAlert,
    NoteForecast, NoteObservation, alert_replay,
};

verus! {

/// The registrar's stream: every registrar event.
#[derive(Debug, Clone, Copy, PartialEq, Eq, Structural)]
pub struct RegistrarStream;

impl StreamFilter<RegistrarEvent> for RegistrarStream {
    open spec fn selects(&self, e: RegistrarEvent) -> bool {
        true
    }

    fn matches(&self, e: &RegistrarEvent) -> (r: bool) {
        true
    }
}

/// One run's stream: the events that carry its id.
#[derive(Debug)]
pub struct RunStream {
    pub update_id: UpdateWeatherId,
}

impl StreamFilter<WeatherEvent> for RunStream {
    open spec fn selects(&self, e: WeatherEvent) -> bool {
        e.spec_update_id() == self.update_id@
    }

    fn matches(&self, e: &WeatherEvent) -> (r: bool) {
        *e.update_id() == self.update_id
    }
}

/// One of a zone's three independent slices.
#[derive(Debug, Clone, Copy, PartialEq, Eq, Structural)]
pub enum ZoneSliceKind {
    Observation,
    Forecast,
    Alert,
}

/// One slice of one zone.
#[derive(Debug)]
pub struct ZoneStream {
    pub zone: LocationZoneCode,
    pub slice: ZoneSliceKind,
}

impl StreamFilter<WeatherEvent> for ZoneStream {
    open spec fn selects(&self, e: WeatherEvent) -> bool {
        match e {
            WeatherEvent::ObservationUpdated { zone, .. } => self.slice == ZoneSliceKind::Observation && zone@
                == self.zone@,
            WeatherEvent::ForecastUpdated { zone, .. } => self.slice == ZoneSliceKind::Forecast && zone@
                == self.zone@,
            WeatherEvent::AlertActivated { zone, .. } => self.slice == ZoneSliceKind::Alert && zone@ == self.zone@,
            WeatherEvent::AlertDeactivated { zone, .. } => self.slice == ZoneSliceKind::Alert && zone@
                == self.zone@,
            _ => false,
        }
    }

    fn matches(&self, e: &WeatherEvent) -> (r: bool) {
        match e {
            WeatherEvent::ObservationUpdated { zone, .. } => self.slice == ZoneSliceKind::Observation && *zone
                == self.zone,
            WeatherEvent::ForecastUpdated { zone, .. } => self.slice == ZoneSliceKind::Forecast && *zone
                == self.zone,
            WeatherEvent::AlertActivated { zone, .. } => self.slice == ZoneSliceKind::Alert && *zone == self.zone,
            WeatherEvent::AlertDeactivated { zone, .. } => self.slice == ZoneSliceKind::Alert && *zone
                == self.zone,
            _ => false,
        }
    }
}

/// Why a command made no events: it was refused, or the append failed.
#[derive(Debug)]
pub enum DecisionError<X> {
    Rejected(X),
    Append(AppendError),
}

/// A command of the registrar.
#[derive(Debug)]
pub enum RegistrarCommand {
    Monitor(MonitorForecastZone),
    Ignore(IgnoreForecastZone),
    Clear(ClearZoneMonitoring),
}

/// What a registrar command decides over the monitored set `s`.
pub open spec fn registrar_outcome(cmd: RegistrarCommand, s: Set<Seq<char>>) -> Result<
    Seq<RegistrarEvent>,
    RegistrarError,
> {
    match cmd {
        RegistrarCommand::Monitor(c) => if s.contains(c.0@) {
            Err(RegistrarError::LocationZoneAlreadyMonitored(c.0))
        } else {
            Ok(seq![RegistrarEvent::ForecastZoneAdded { zone: c.0 }])
        },
        RegistrarCommand::Ignore(c) => if s.contains(c.0@) {
            Ok(seq![RegistrarEvent::ForecastZoneRemoved { zone: c.0 }])
        } else {
            Ok(seq![])
        },
        RegistrarCommand::Clear(_) => if s != Set::<Seq<char>>::empty() {
            Ok(seq![RegistrarEvent::AllForecastZonesRemoved])
        } else {
            Ok(seq![])
        },
    }
}

impl RegistrarCommand {
    pub fn process(&self, state: &Registrar) -> (r: Result<Vec<RegistrarEvent>, RegistrarError>)
        ensures
            seq_result(r) == registrar_outcome(*self, state.location_codes.view()),
    {
        let r = match self {
            RegistrarCommand::Monitor(c) => c.process(state),
            RegistrarCommand::Ignore(c) => c.process(state),
            RegistrarCommand::Clear(c) => c.process(state),
        };
        proof {
            if r is Ok {
                assert(r->Ok_0@ =~= registrar_outcome(*self, state.location_codes.view())->Ok_0);
            }
        }
        r
    }
}

/// Decides a registrar command against the log and appends what it decides.
/// The state is the replay of the registrar stream; what is appended is a function
/// of that history and the command alone.
pub fn make_registrar_decision(log: &mut EventLog<RegistrarEvent>, command: &RegistrarCommand) -> (r: Result<
    u64,
    DecisionError<RegistrarError>,
>)
    requires
        old(log).wf(),
    ensures
        final(log).wf(),
        ({
            let outcome = registrar_outcome(*command, registrar_replay(old(log).spec_events()));
            match r {
                Ok(v) => outcome is Ok && final(log).spec_events() == old(log).spec_events() + outcome->Ok_0
                    && v == final(log).spec_version() && final(log).spec_sequences() == old(log).spec_sequences()
                    + fresh_sequences(old(log).spec_version(), outcome->Ok_0.len()),
                Err(DecisionError::Rejected(e)) => outcome == Err::<Seq<RegistrarEvent>, RegistrarError>(e)
                    && *final(log) == *old(log),
                Err(DecisionError::Append(e)) => outcome is Ok && e == AppendError::Exhausted
                    && old(log).spec_version() == u64::MAX && *final(log) == *old(log),
            }
        }),
{
    let version = log.slice_version(&RegistrarStream);
    let state = Registrar::from_history(log.events());
    match command.process(&state) {
        Err(e) => Err(DecisionError::Rejected(e)),
        Ok(events) => match log.append(&RegistrarStream, version, events) {
            Ok(v) => Ok(v),
            Err(e) => Err(DecisionError::Append(e)),
        },
    }
}

/// A command of the "update weather" saga.
#[derive(Debug)]
pub enum UpdateCommand {
    Start(StartUpdate),
    AlertsReviewed(NoteAlertsReviewed),
    LocationFailed(NoteLocationUpdateFailure),
}

impl UpdateCommand {
    pub open spec fn spec_update_id(&self) -> UpdateWeatherId {
        match self {
            UpdateCommand::Start(c) => c.update_id,
            UpdateCommand::AlertsReviewed(c) => c.0,
            UpdateCommand::LocationFailed(c) => c.update_id,
        }
    }

    pub fn update_id(&self) -> (r: &UpdateWeatherId)
        ensures
            *r == self.spec_update_id(),
    {
        match self {
            UpdateCommand::Start(c) => &c.update_id,
            UpdateCommand::AlertsReviewed(c) => &c.0,
            UpdateCommand::LocationFailed(c) => &c.update_id,
        }
    }
}

/// What a saga command decides on a run in state `s`.
pub open spec fn update_decided(
    cmd: UpdateCommand,
    s: SagaModel,
    r: Result<Seq<WeatherEvent>, UpdateWeatherError>,
) -> bool {
    match cmd {
        UpdateCommand::Start(c) => start_update_decided(c, s, r),
        UpdateCommand::AlertsReviewed(c) => alerts_reviewed_decided(c, s, r),
        UpdateCommand::LocationFailed(c) => failure_decided(c, s, r),
    }
}

/// Decides a saga command against the run's stream of the log and appends what it
/// decides. A finished run refuses every saga command.
pub fn make_update_decision(log: &mut EventLog<WeatherEvent>, command: &UpdateCommand) -> (r: Result<
    u64,
    DecisionError<UpdateWeatherError>,
>)
    requires
        old(log).wf(),
    ensures
        final(log).wf(),
        ({
            let s = saga_replay(SagaModel::Quiescent, run_slice(old(log).spec_events(), command.spec_update_id()@));
            match r {
                Ok(v) => exists|evs: Seq<WeatherEvent>|
                    update_decided(*command, s, Ok(evs)) && final(log).spec_events() == old(log).spec_events()
                        + evs && v == final(log).spec_version() && final(log).spec_sequences()
                        == old(log).spec_sequences() + fresh_sequences(old(log).spec_version(), evs.len()),
                Err(DecisionError::Rejected(e)) => update_decided(*command, s, Err(e)) && *final(log) == *old(log),
                Err(DecisionError::Append(e)) => e == AppendError::Exhausted && old(log).spec_version() == u64::MAX
                    && *final(log) == *old(log),
            }
        }),
{
    let id = command.update_id().clone();
    let stream = RunStream { update_id: id.clone() };
    let version = log.slice_version(&stream);
    let state = UpdateWeather::from_history(id, log.events());
    let decided = match command {
        UpdateCommand::Start(c) => c.process(&state),
        UpdateCommand::AlertsReviewed(c) => c.process(&state),
        UpdateCommand::LocationFailed(c) => c.process(&state),
    };
    match decided {
        Err(e) => Err(DecisionError::Rejected(e)),
        Ok(events) => match log.append(&stream, version, events) {
            Ok(v) => Ok(v),
            Err(e) => Err(DecisionError::Append(e)),
        },
    }
}

/// A command of a zone.
#[derive(Debug)]
pub enum ZoneCommand {
    Observe(NoteObservation),
    Forecast(NoteForecast),
    Alert(NoteAlert),
}

/// What a zone command decides, given the zone's alert slice `alert`.
pub open spec fn zone_decided(
    cmd: ZoneCommand,
    alert: Option<std::sync::Arc<crate::weather_data::WeatherAlert>>,
    evs: Seq<WeatherEvent>,
) -> bool {
    match cmd {
        ZoneCommand::Observe(c) => evs == seq![WeatherEvent::ObservationUpdated {
            zone: c.zone,
            update_id: c.update_id,
            weather: c.weather,
        }],
        ZoneCommand::Forecast(c) => evs == seq![WeatherEvent::ForecastUpdated {
            zone: c.zone,
            update_id: c.update_id,
            forecast: c.forecast,
        }],
        ZoneCommand::Alert(c) => if alert is None && c.alert is Some {
            evs == seq![WeatherEvent::AlertActivated {
                zone: c.zone,
                update_id: c.update_id,
                alert: c.alert->Some_0,
            }]
        } else if alert is Some && c.alert is None {
            evs == seq![WeatherEvent::AlertDeactivated { zone: c.zone, update_id: c.update_id }]
        } else {
            evs == Seq::<WeatherEvent>::empty()
        },
    }
}

impl ZoneCommand {
    pub open spec fn spec_zone(&self) -> LocationZoneCode {
        match self {
            ZoneCommand::Observe(c) => c.zone,
            ZoneCommand::Forecast(c) => c.zone,
            ZoneCommand::Alert(c) => c.zone,
        }
    }
}

/// Decides a zone command against that zone's slice of the log and appends what it
/// decides; each slice is its own stream, so the three never conflict.
pub fn make_zone_decision(log: &mut EventLog<WeatherEvent>, command: &ZoneCommand) -> (r: Result<
    u64,
    DecisionError<LocationZoneError>,
>)
    requires
        old(log).wf(),
    ensures
        final(log).wf(),
        ({
            let alert = alert_replay(old(log).spec_events(), command.spec_zone()@);
            match r {
                Ok(v) => exists|evs: Seq<WeatherEvent>|
                    zone_decided(*command, alert, evs) && final(log).spec_events() == old(log).spec_events() + evs
                        && v == final(log).spec_version() && final(log).spec_sequences()
                        == old(log).spec_sequences() + fresh_sequences(old(log).spec_version(), evs.len()),
                Err(DecisionError::Rejected(_)) => false,
                Err(DecisionError::Append(e)) => e == AppendError::Exhausted && old(log).spec_version() == u64::MAX
                    && *final(log) == *old(log),
            }
        }),
{
    let (stream, decided) = match command {
        ZoneCommand::Observe(c) => {
            let state = LocationZoneWeather::new(c.zone.clone());
            (ZoneStream { zone: c.zone.clone(), slice: ZoneSliceKind::Observation }, c.process(&state))
        },
        ZoneCommand::Forecast(c) => {
            let state = LocationZoneForecast::new(c.zone.clone());
            (ZoneStream { zone: c.zone.clone(), slice: ZoneSliceKind::Forecast }, c.process(&state))
        },
        ZoneCommand::Alert(c) => {
            let state = LocationZoneAlert::from_history(c.zone.clone(), log.events());
            (ZoneStream { zone: c.zone.clone(), slice: ZoneSliceKind::Alert }, c.process(&state))
        },
    };
    let version = log.slice_version(&stream);
    match decided {
        Err(e) => Err(DecisionError::Rejected(e)),
        Ok(events) => {
            proof {
                assert(zone_decided(*command, alert_replay(log.spec_events(), command.spec_zone()@), events@)) by {
                    match *command {
                        ZoneCommand::Alert(c) => {
                            if events@.len() == 0 {
                                assert(events@ =~= Seq::<WeatherEvent>::empty());
                            } else {
                                assert(events@ =~= seq![events@[0]]);
                            }
                        },
                        _ => {
                            assert(events@ =~= seq![events@[0]]);
                        },
                    }
                }
            }
            match log.append(&stream, version, events) {
                Ok(v) => Ok(v),
                Err(e) => Err(DecisionError::Append(e)),
            }
        },
    }
}

/// Two saga events that are the same value, a list of zones compared element by
/// element.
pub open spec fn same_event(a: WeatherEvent, b: WeatherEvent) -> bool {
    match (a, b) {
        (WeatherEvent::UpdateStarted { update_id: i1, zones: z1 }, WeatherEvent::UpdateStarted { update_id: i2, zones: z2 }) =>
            i1 == i2 && z1@ == z2@,
        _ => a == b,
    }
}

/// Two saga refusals that say the same: the same kind, run and zones or command name.
pub open spec fn same_refusal(a: UpdateWeatherError, b: UpdateWeatherError) -> bool {
    match (a, b) {
        (UpdateWeatherError::NoLocations, UpdateWeatherError::NoLocations) => true,
        (UpdateWeatherError::AlreadyStarted(i1, z1), UpdateWeatherError::AlreadyStarted(i2, z2)) => i1 == i2 && z1@
            == z2@,
        (UpdateWeatherError::NotStarted(i1, n1), UpdateWeatherError::NotStarted(i2, n2)) => i1@ == i2@ && n1@ == n2@,
        (UpdateWeatherError::Finished(i1, n1), UpdateWeatherError::Finished(i2, n2)) => i1@ == i2@ && n1@ == n2@,
        (UpdateWeatherError::NotInRun(i1, z1), UpdateWeatherError::NotInRun(i2, z2)) => i1 == i2 && z1 == z2,
        _ => false,
    }
}

/// Decision purity for the saga: on the history `h`, two outcomes that a saga command
/// may decide are the same outcome, event for event; and what it decides depends on
/// the events of its own run alone.
pub proof fn lemma_update_decision_is_pure(
    cmd: UpdateCommand,
    h: Seq<WeatherEvent>,
    other: Seq<WeatherEvent>,
    r1: Result<Seq<WeatherEvent>, UpdateWeatherError>,
    r2: Result<Seq<WeatherEvent>, UpdateWeatherError>,
)
    requires
        update_decided(cmd, saga_replay(SagaModel::Quiescent, run_slice(h, cmd.spec_update_id()@)), r1),
        update_decided(cmd, saga_replay(SagaModel::Quiescent, run_slice(h, cmd.spec_update_id()@)), r2),
        run_slice(other, cmd.spec_update_id()@) == run_slice(h, cmd.spec_update_id()@),
    ensures
        r1 is Ok <==> r2 is Ok,
        r1 is Ok ==> r1->Ok_0.len() == r2->Ok_0.len() && forall|i: int|
            0 <= i < r1->Ok_0.len() ==> same_event(#[trigger] r1->Ok_0[i], r2->Ok_0[i]),
        r1 is Err ==> same_refusal(r1->Err_0, r2->Err_0),
        update_decided(cmd, saga_replay(SagaModel::Quiescent, run_slice(other, cmd.spec_update_id()@)), r1),
{
    if r1 is Ok {
        assert forall|i: int| 0 <= i < r1->Ok_0.len() implies same_event(#[trigger] r1->Ok_0[i], r2->Ok_0[i]) by {
            assert(i == 0);
        }
    }
}

/// Decision purity for a zone command: on the same alert slice it decides one list
/// of events.
pub proof fn lemma_zone_decision_is_pure(
    cmd: ZoneCommand,
    h: Seq<WeatherEvent>,
    e1: Seq<WeatherEvent>,
    e2: Seq<WeatherEvent>,
)
    requires
        zone_decided(cmd, alert_replay(h, cmd.spec_zone()@), e1),
        zone_decided(cmd, alert_replay(h, cmd.spec_zone()@), e2),
    ensures
        e1 == e2,
{
}

/// Saga invariance: once a run has finished, every saga command of that run is refused
/// with `Finished` and decides no event, and no later event of the run changes its state.
pub proof fn lemma_finished_run_refuses(
    cmd: UpdateCommand,
    r: Result<Seq<WeatherEvent>, UpdateWeatherError>,
    later: Seq<WeatherEvent>,
)
    requires
        update_decided(cmd, SagaModel::Finished, r),
    ensures
        r is Err,
        !(cmd is Start) ==> r->Err_0 is Finished,
        saga_replay(SagaModel::Finished, later) == SagaModel::Finished,
{
    crate::saga_laws::lemma_finished_is_final(later);
}

} // verus!
