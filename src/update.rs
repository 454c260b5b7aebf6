use vstd::prelude::*;
use crate::events::{WeatherEvent, clone_zones, zone_codes};
use crate::ids::{LocationZoneCode, UpdateWeatherId};
use crate::update_state::{
    SagaModel, StatusModel, UpdateWeatherStateDiscriminants, WeatherUpdateStatus, initial_entries,
    saga_step, saga_replay, lookup,
};

verus! {

/// A run that has not started.
#[derive(Debug, Clone, Copy, PartialEq, Eq, Structural)]
pub struct QuiescentWeatherUpdate;

/// A run that has finished: every zone terminal and alerts reviewed.
#[derive(Debug, Clone, Copy, PartialEq, Eq, Structural)]
pub struct FinishedWeatherUpdate;

/// The state of one run of the "update weather" saga.
#[derive(Debug)]
pub enum UpdateWeatherState {
    Quiescent(QuiescentWeatherUpdate),
    Active(WeatherUpdateStatus),
    Finished(FinishedWeatherUpdate),
}

impl UpdateWeatherState {
    pub open spec fn model(&self) -> SagaModel {
        match self {
            UpdateWeatherState::Quiescent(_) => SagaModel::Quiescent,
            UpdateWeatherState::Active(a) => SagaModel::Active(a.model()),
            UpdateWeatherState::Finished(_) => SagaModel::Finished,
        }
    }

    pub open spec fn wf(&self) -> bool {
        match self {
            UpdateWeatherState::Active(a) => a.wf(),
            _ => true,
        }
    }

    pub fn discriminant(&self) -> (r: UpdateWeatherStateDiscriminants)
        ensures
            r == (match self.model() {
                SagaModel::Quiescent => UpdateWeatherStateDiscriminants::Quiescent,
                SagaModel::Active(_) => UpdateWeatherStateDiscriminants::Active,
                SagaModel::Finished => UpdateWeatherStateDiscriminants::Finished,
            }),
    {
        match self {
            UpdateWeatherState::Quiescent(_) => UpdateWeatherStateDiscriminants::Quiescent,
            UpdateWeatherState::Active(_) => UpdateWeatherStateDiscriminants::Active,
            UpdateWeatherState::Finished(_) => UpdateWeatherStateDiscriminants::Finished,
        }
    }

    /// Applies one event of the run: `UpdateStarted` starts a quiescent run, events of
    /// an active run advance it until it finishes, and a finished run stays finished.
    pub fn mutate(&mut self, event: &WeatherEvent)
        requires
            old(self).wf(),
        ensures
            final(self).wf(),
            final(self).model() == saga_step(old(self).model(), *event),
    {
        let finished = match self {
            UpdateWeatherState::Quiescent(_) => {
                match event {
                    WeatherEvent::UpdateStarted { zones, .. } => {
                        *self = UpdateWeatherState::Active(WeatherUpdateStatus::new(clone_zones(zones)));
                    },
                    _ => {},
                }
                false
            },
            UpdateWeatherState::Active(a) => {
                let d = a.mutate(event);
                d == UpdateWeatherStateDiscriminants::Finished
            },
            UpdateWeatherState::Finished(_) => false,
        };
        if finished {
            *self = UpdateWeatherState::Finished(FinishedWeatherUpdate);
        }
    }
}

impl Default for UpdateWeatherState {
    fn default() -> (r: Self)
        ensures
            r.model() == SagaModel::Quiescent,
    {
        UpdateWeatherState::Quiescent(QuiescentWeatherUpdate)
    }
}

/// The saga aggregate of one run: its identifier and its state.
#[derive(Debug)]
pub struct UpdateWeather {
    pub update_id: UpdateWeatherId,
    pub state: UpdateWeatherState,
}

impl UpdateWeather {
    pub fn new(update_id: UpdateWeatherId) -> (r: Self)
        ensures
            r.update_id == update_id,
            r.state.model() == SagaModel::Quiescent,
            r.state.wf(),
    {
        UpdateWeather { update_id, state: UpdateWeatherState::default() }
    }

    /// Applies one event to the run's state.
    pub fn mutate(&mut self, event: &WeatherEvent)
        requires
            old(self).state.wf(),
        ensures
            final(self).state.wf(),
            final(self).update_id == old(self).update_id,
            final(self).state.model() == saga_step(old(self).state.model(), *event),
    {
        self.state.mutate(event);
    }

    /// The run's state rebuilt from the log: the events of run `update_id`, replayed in
    /// order from quiescent.
    pub fn from_history(update_id: UpdateWeatherId, history: &Vec<WeatherEvent>) -> (r: Self)
        ensures
            r.update_id == update_id,
            r.state.wf(),
            r.state.model() == saga_replay(SagaModel::Quiescent, run_slice(history@, update_id@)),
    {
        let mut agg = UpdateWeather::new(update_id);
        let mut i: usize = 0;
        while i < history.len()
            invariant
                i <= history.len(),
                agg.update_id == update_id,
                agg.state.wf(),
                agg.state.model() == saga_replay(SagaModel::Quiescent, run_slice(history@.take(i as int), update_id@)),
            decreases history.len() - i,
        {
            let ev = &history[i];
            assert(history@.take(i + 1).drop_last() =~= history@.take(i as int));
            if *ev.update_id() == agg.update_id {
                let ghost before = run_slice(history@.take(i as int), update_id@);
                agg.mutate(ev);
                assert(run_slice(history@.take(i + 1), update_id@).drop_last() =~= before);
            }
            i = i + 1;
        }
        assert(history@.take(i as int) =~= history@);
        agg
    }
}

/// The events of run `id` in `h`, in order.
pub open spec fn run_slice(h: Seq<WeatherEvent>, id: Seq<char>) -> Seq<WeatherEvent>
    decreases h.len(),
{
    if h.len() == 0 {
        seq![]
    } else {
        let p = run_slice(h.drop_last(), id);
        if h.last().spec_update_id() == id {
            p.push(h.last())
        } else {
            p
        }
    }
}

/// Why a saga command was refused.
#[derive(Debug)]
pub enum UpdateWeatherError {
    /// An update was asked for no zones.
    NoLocations,
    /// The run has already started (its id and the zones asked for).
    AlreadyStarted(UpdateWeatherId, Vec<LocationZoneCode>),
    /// The run has not started (its id and the command's name).
    NotStarted(UpdateWeatherId, String),
    /// The run has finished (its id and the command's name).
    Finished(UpdateWeatherId, String),
    /// A zone is not part of the run (its id and the zone).
    NotInRun(UpdateWeatherId, LocationZoneCode),
}

/// A result with its list of events seen as a sequence.
pub open spec fn seq_result<T, X>(r: Result<Vec<T>, X>) -> Result<Seq<T>, X> {
    match r {
        Ok(v) => Ok(v@),
        Err(e) => Err(e),
    }
}

/// What `StartUpdate` decides on a run in state `s`: on a quiescent run, one
/// `UpdateStarted` with the command's id and zones; otherwise `AlreadyStarted`.
pub open spec fn start_update_decided(
    cmd: StartUpdate,
    s: SagaModel,
    r: Result<Seq<WeatherEvent>, UpdateWeatherError>,
) -> bool {
    &&& s is Quiescent <==> r is Ok
    &&& r is Ok ==> r->Ok_0.len() == 1 && match r->Ok_0[0] {
        WeatherEvent::UpdateStarted { update_id, zones } => update_id == cmd.update_id && zones@ == cmd.zones@,
        _ => false,
    }
    &&& r is Err ==> match r->Err_0 {
        UpdateWeatherError::AlreadyStarted(id, zs) => id == cmd.update_id && zs@ == cmd.zones@,
        _ => false,
    }
}

/// What `NoteAlertsReviewed` decides on a run in state `s`.
pub open spec fn alerts_reviewed_decided(
    cmd: NoteAlertsReviewed,
    s: SagaModel,
    r: Result<Seq<WeatherEvent>, UpdateWeatherError>,
) -> bool {
    &&& s is Active <==> r is Ok
    &&& match s {
        SagaModel::Active(m) => if m.alerts_reviewed {
            r->Ok_0.len() == 0
        } else {
            r->Ok_0.len() == 1 && match r->Ok_0[0] {
                WeatherEvent::AlertsReviewed { update_id } => update_id == cmd.0,
                _ => false,
            }
        },
        _ => true,
    }
    &&& r is Err ==> refused_for_state(r->Err_0, s, cmd.0@, NoteAlertsReviewed::spec_name())
}

/// Whether `s` is an active run that holds zone `z`.
pub open spec fn run_has_zone(s: SagaModel, z: Seq<char>) -> bool {
    match s {
        SagaModel::Active(m) => lookup(m.entries, z) is Some,
        _ => false,
    }
}

/// What `NoteLocationUpdateFailure` decides on a run in state `s`.
pub open spec fn failure_decided(
    cmd: NoteLocationUpdateFailure,
    s: SagaModel,
    r: Result<Seq<WeatherEvent>, UpdateWeatherError>,
) -> bool {
    &&& run_has_zone(s, cmd.zone@) <==> r is Ok
    &&& r is Ok ==> r->Ok_0.len() == 1 && match r->Ok_0[0] {
        WeatherEvent::UpdateLocationFailed { update_id, zone, cause } =>
            update_id == cmd.update_id && zone == cmd.zone && cause == cmd.cause,
        _ => false,
    }
    &&& (s is Active && !run_has_zone(s, cmd.zone@)) ==> r == Err::<Seq<WeatherEvent>, UpdateWeatherError>(
        UpdateWeatherError::NotInRun(cmd.update_id, cmd.zone),
    )
    &&& !(s is Active) ==> refused_for_state(r->Err_0, s, cmd.update_id@, NoteLocationUpdateFailure::spec_name())
}

/// Starts a run over a non-empty list of zones.
#[derive(Debug)]
pub struct StartUpdate {
    pub update_id: UpdateWeatherId,
    pub zones: Vec<LocationZoneCode>,
}

impl StartUpdate {
    /// A command for run `update_id`; refused with `NoLocations` iff `zones` is empty.
    pub fn new(update_id: UpdateWeatherId, zones: Vec<LocationZoneCode>) -> (r: Result<Self, UpdateWeatherError>)
        ensures
            zones@.len() == 0 <==> r is Err,
            r is Err ==> r->Err_0 is NoLocations,
            r is Ok ==> r->Ok_0.update_id == update_id && r->Ok_0.zones == zones,
    {
        if zones.len() == 0 {
            return Err(UpdateWeatherError::NoLocations);
        }
        Ok(StartUpdate { update_id, zones })
    }

    /// A command for a freshly generated run id.
    pub fn for_zones(zones: Vec<LocationZoneCode>) -> (r: Result<Self, UpdateWeatherError>)
        ensures
            zones@.len() == 0 <==> r is Err,
            r is Err ==> r->Err_0 is NoLocations,
            r is Ok ==> r->Ok_0.zones == zones,
    {
        StartUpdate::new(UpdateWeatherId::next_id(), zones)
    }

    /// On a quiescent run, one `UpdateStarted` with this command's id and zones; on
    /// any other, `AlreadyStarted`.
    pub fn process(&self, state: &UpdateWeather) -> (r: Result<Vec<WeatherEvent>, UpdateWeatherError>)
        ensures
            start_update_decided(*self, state.state.model(), seq_result(r)),
    {
        match state.state {
            UpdateWeatherState::Quiescent(_) => {
                Ok(vec![WeatherEvent::UpdateStarted { update_id: self.update_id.clone(), zones: clone_zones(&self.zones) }])
            },
            _ => Err(UpdateWeatherError::AlreadyStarted(self.update_id.clone(), clone_zones(&self.zones))),
        }
    }
}

/// Whether `r` is the refusal a command named `name` gets on run `id` in state `s`:
/// `NotStarted` on a quiescent run, `Finished` on a finished one.
pub open spec fn refused_for_state(
    r: UpdateWeatherError,
    s: SagaModel,
    id: Seq<char>,
    name: Seq<char>,
) -> bool {
    match s {
        SagaModel::Quiescent => match r {
            UpdateWeatherError::NotStarted(i, n) => i@ == id && n@ == name,
            _ => false,
        },
        SagaModel::Finished => match r {
            UpdateWeatherError::Finished(i, n) => i@ == id && n@ == name,
            _ => false,
        },
        SagaModel::Active(_) => false,
    }
}

/// Notes that the alerts of a run have been reviewed.
#[derive(Debug)]
pub struct NoteAlertsReviewed(pub UpdateWeatherId);

impl NoteAlertsReviewed {
    pub open spec fn spec_name() -> Seq<char> {
        "NoteAlertsReviewed"@
    }

    /// On an active run, one `AlertsReviewed`, or none if its alerts were reviewed
    /// already; otherwise `NotStarted` or `Finished`.
    pub fn process(&self, state: &UpdateWeather) -> (r: Result<Vec<WeatherEvent>, UpdateWeatherError>)
        ensures
            alerts_reviewed_decided(*self, state.state.model(), seq_result(r)),
    {
        match &state.state {
            UpdateWeatherState::Active(a) => {
                if a.alerts_reviewed {
                    Ok(Vec::new())
                } else {
                    Ok(vec![WeatherEvent::AlertsReviewed { update_id: self.0.clone() }])
                }
            },
            UpdateWeatherState::Quiescent(_) => {
                proof {
                    reveal_strlit("NoteAlertsReviewed");
                }
                Err(UpdateWeatherError::NotStarted(self.0.clone(), "NoteAlertsReviewed".to_owned()))
            },
            UpdateWeatherState::Finished(_) => {
                proof {
                    reveal_strlit("NoteAlertsReviewed");
                }
                Err(UpdateWeatherError::Finished(self.0.clone(), "NoteAlertsReviewed".to_owned()))
            },
        }
    }
}

/// Notes that a zone could not be updated in a run.
#[derive(Debug)]
pub struct NoteLocationUpdateFailure {
    pub update_id: UpdateWeatherId,
    pub zone: LocationZoneCode,
    pub cause: String,
}

impl NoteLocationUpdateFailure {
    pub open spec fn spec_name() -> Seq<char> {
        "NoteLocationUpdateFailure"@
    }

    /// On an active run, one `UpdateLocationFailed` with this command's fields, or
    /// `NotInRun` for a zone outside the run; otherwise `NotStarted` or `Finished`.
    pub fn process(&self, state: &UpdateWeather) -> (r: Result<Vec<WeatherEvent>, UpdateWeatherError>)
        requires
            state.state.wf(),
        ensures
            failure_decided(*self, state.state.model(), seq_result(r)),
    {
        match &state.state {
            UpdateWeatherState::Active(a) => {
                if a.status_for(&self.zone).is_some() {
                    Ok(vec![WeatherEvent::UpdateLocationFailed {
                        update_id: self.update_id.clone(),
                        zone: self.zone.clone(),
                        cause: self.cause.clone(),
                    }])
                } else {
                    Err(UpdateWeatherError::NotInRun(self.update_id.clone(), self.zone.clone()))
                }
            },
            UpdateWeatherState::Quiescent(_) => {
                proof {
                    reveal_strlit("NoteLocationUpdateFailure");
                }
                Err(UpdateWeatherError::NotStarted(self.update_id.clone(), "NoteLocationUpdateFailure".to_owned()))
            },
            UpdateWeatherState::Finished(_) => {
                proof {
                    reveal_strlit("NoteLocationUpdateFailure");
                }
                Err(UpdateWeatherError::Finished(self.update_id.clone(), "NoteLocationUpdateFailure".to_owned()))
            },
        }
    }
}

} // verus!
