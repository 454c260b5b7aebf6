use vstd::prelude::*;
use crate::events::{WeatherEvent, zone_codes};
use crate::status::{LocationUpdateStatus, UpdateStep};
use crate::update_state::{
    SagaModel, StatusModel, all_completed, has_zone, initial_entries, lemma_initial_entries,
    lemma_with_status, lookup, run_finished, saga_replay, saga_step, unique_zones,
};

verus! {

/// Whether `ev` records `step` for zone `z`.
pub open spec fn records_step(ev: WeatherEvent, z: Seq<char>, step: UpdateStep) -> bool {
    match ev {
        WeatherEvent::ObservationUpdated { zone, .. } => step == UpdateStep::Observation && zone@ == z,
        WeatherEvent::ForecastUpdated { zone, .. } => step == UpdateStep::Forecast && zone@ == z,
        WeatherEvent::AlertActivated { zone, .. } => step == UpdateStep::Alert && zone@ == z,
        WeatherEvent::AlertDeactivated { zone, .. } => step == UpdateStep::Alert && zone@ == z,
        _ => false,
    }
}

/// Whether `ev` records that zone `z` failed.
pub open spec fn records_failure(ev: WeatherEvent, z: Seq<char>) -> bool {
    match ev {
        WeatherEvent::UpdateLocationFailed { zone, .. } => zone@ == z,
        _ => false,
    }
}

/// The zone whose progress `ev` records, if any.
pub open spec fn progress_zone(ev: WeatherEvent) -> Option<Seq<char>> {
    match ev {
        WeatherEvent::ObservationUpdated { zone, .. } => Some(zone@),
        WeatherEvent::ForecastUpdated { zone, .. } => Some(zone@),
        WeatherEvent::AlertActivated { zone, .. } => Some(zone@),
        WeatherEvent::AlertDeactivated { zone, .. } => Some(zone@),
        WeatherEvent::UpdateLocationFailed { zone, .. } => Some(zone@),
        _ => None,
    }
}

pub open spec fn step_recorded(evs: Seq<WeatherEvent>, z: Seq<char>, step: UpdateStep) -> bool {
    exists|i: int| 0 <= i < evs.len() && records_step(#[trigger] evs[i], z, step)
}

pub open spec fn failure_recorded(evs: Seq<WeatherEvent>, z: Seq<char>) -> bool {
    exists|i: int| 0 <= i < evs.len() && records_failure(#[trigger] evs[i], z)
}

pub open spec fn alerts_review_recorded(evs: Seq<WeatherEvent>) -> bool {
    exists|i: int| 0 <= i < evs.len() && (#[trigger] evs[i]) is AlertsReviewed
}

/// Zone `z` has both an observation and a forecast, or a failure, in `evs`.
pub open spec fn zone_covered(evs: Seq<WeatherEvent>, z: Seq<char>) -> bool {
    (step_recorded(evs, z, UpdateStep::Observation) && step_recorded(evs, z, UpdateStep::Forecast))
        || failure_recorded(evs, z)
}

pub open spec fn step_done(st: LocationUpdateStatus, step: UpdateStep) -> bool {
    match st {
        LocationUpdateStatus::InProgress(c) => c.has(step),
        _ => true,
    }
}

proof fn lemma_advanced(st: LocationUpdateStatus, step: UpdateStep, other: UpdateStep)
    ensures
        step_done(st.advanced(step), step),
        step_done(st, other) ==> step_done(st.advanced(step), other),
        st.completed() ==> st.advanced(step).completed(),
        step_done(st, UpdateStep::Observation) && step_done(st, UpdateStep::Forecast) ==> st.completed(),
{
}

/// What holds of an active run after a prefix `evs` of the run's events.
spec fn progressing(m: StatusModel, zones: Seq<Seq<char>>, evs: Seq<WeatherEvent>) -> bool {
    &&& unique_zones(m.entries)
    &&& forall|z: Seq<char>| #[trigger] has_zone(m.entries, z) <==> zones.contains(z)
    &&& forall|z: Seq<char>, step: UpdateStep|
        has_zone(m.entries, z) && #[trigger] step_recorded(evs, z, step)
            ==> step_done(lookup(m.entries, z).unwrap(), step)
    &&& forall|z: Seq<char>|
        has_zone(m.entries, z) && #[trigger] failure_recorded(evs, z) ==> lookup(m.entries, z).unwrap().completed()
    &&& alerts_review_recorded(evs) ==> m.alerts_reviewed
    &&& !run_finished(m)
}

spec fn saga_inv(s: SagaModel, zones: Seq<Seq<char>>, evs: Seq<WeatherEvent>) -> bool {
    match s {
        SagaModel::Finished => true,
        SagaModel::Active(m) => progressing(m, zones, evs),
        SagaModel::Quiescent => false,
    }
}

proof fn lemma_inv_step(s: SagaModel, zones: Seq<Seq<char>>, evs: Seq<WeatherEvent>, ev: WeatherEvent)
    requires
        saga_inv(s, zones, evs),
    ensures
        saga_inv(saga_step(s, ev), zones, evs.push(ev)),
{
    let evs2 = evs.push(ev);
    assert forall|z: Seq<char>, step: UpdateStep| #[trigger] step_recorded(evs2, z, step)
        implies step_recorded(evs, z, step) || records_step(ev, z, step) by {
        let i = choose|i: int| 0 <= i < evs2.len() && records_step(#[trigger] evs2[i], z, step);
        if i < evs.len() {
            assert(evs2[i] == evs[i]);
        }
    }
    assert forall|z: Seq<char>| #[trigger] failure_recorded(evs2, z)
        implies failure_recorded(evs, z) || records_failure(ev, z) by {
        let i = choose|i: int| 0 <= i < evs2.len() && records_failure(#[trigger] evs2[i], z);
        if i < evs.len() {
            assert(evs2[i] == evs[i]);
        }
    }
    if alerts_review_recorded(evs2) && !(ev is AlertsReviewed) {
        let i = choose|i: int| 0 <= i < evs2.len() && (#[trigger] evs2[i]) is AlertsReviewed;
        assert(evs2[i] == evs[i]);
    }
    if let SagaModel::Active(m) = s {
        let e = m.entries;
        let m2 = crate::update_state::status_step(m, ev);
        match ev {
            WeatherEvent::AlertsReviewed { .. } => {},
            WeatherEvent::UpdateStarted { .. } => {},
            WeatherEvent::UpdateLocationFailed { zone, .. } => {
                let w = zone@;
                match lookup(e, w) {
                    Some(st) if !st.completed() => {
                        lemma_with_status(e, w, LocationUpdateStatus::Failed);
                    },
                    _ => {},
                }
            },
            _ => {
                let w = progress_zone(ev).unwrap();
                let step = if ev is ObservationUpdated {
                    UpdateStep::Observation
                } else if ev is ForecastUpdated {
                    UpdateStep::Forecast
                } else {
                    UpdateStep::Alert
                };
                assert(records_step(ev, w, step));
                if let Some(st) = lookup(e, w) {
                    assert(m2.entries == crate::update_state::with_status(e, w, st.advanced(step)));
                    lemma_with_status(e, w, st.advanced(step));
                    assert forall|o: UpdateStep| true implies (step_done(st, o) ==> step_done(st.advanced(step), o))
                        && step_done(st.advanced(step), step) by {
                        lemma_advanced(st, step, o);
                    }
                    lemma_advanced(st, step, step);
                }
            },
        }
        assert forall|z: Seq<char>| has_zone(m2.entries, z)
            implies #[trigger] lookup(m2.entries, z) is Some by {}
    }
}

proof fn lemma_inv_prefix(s0: SagaModel, zones: Seq<Seq<char>>, evs: Seq<WeatherEvent>, k: int)
    requires
        0 <= k <= evs.len(),
        saga_inv(s0, zones, evs.take(0)),
    ensures
        saga_inv(saga_replay(s0, evs.take(k)), zones, evs.take(k)),
    decreases k,
{
    if k > 0 {
        lemma_inv_prefix(s0, zones, evs, k - 1);
        assert(evs.take(k) =~= evs.take(k - 1).push(evs[k - 1]));
        assert(evs.take(k).drop_last() =~= evs.take(k - 1));
        let ev = evs[k - 1];
        lemma_inv_step(saga_replay(s0, evs.take(k - 1)), zones, evs.take(k - 1), ev);
    }
}

/// Once a run has finished, no event changes its state.
pub proof fn lemma_finished_is_final(evs: Seq<WeatherEvent>)
    ensures
        saga_replay(SagaModel::Finished, evs) == SagaModel::Finished,
    decreases evs.len(),
{
    if evs.len() > 0 {
        lemma_finished_is_final(evs.drop_last());
    }
}

/// Saga termination: after `UpdateStarted` over zones Z, once the run's events hold,
/// for each zone of Z, an observation and a forecast or a failure, and hold an
/// `AlertsReviewed`, the run is finished, in whatever order those events came and
/// whatever else they hold.
pub proof fn lemma_saga_terminates(start: WeatherEvent, evs: Seq<WeatherEvent>)
    requires
        start is UpdateStarted,
        forall|z: Seq<char>| start.spec_zones().contains(z) ==> #[trigger] zone_covered(evs, z),
        alerts_review_recorded(evs),
    ensures
        saga_replay(saga_step(SagaModel::Quiescent, start), evs) == SagaModel::Finished,
{
    let zones = start.spec_zones();
    let s0 = saga_step(SagaModel::Quiescent, start);
    lemma_initial_entries(zones);
    assert(s0 == SagaModel::Active(StatusModel { entries: initial_entries(zones), alerts_reviewed: false }));
    assert(!step_recorded(seq![], seq![], UpdateStep::Alert));
    assert(saga_inv(s0, zones, evs.take(0))) by {
        let m = StatusModel { entries: initial_entries(zones), alerts_reviewed: false };
        assert(evs.take(0) =~= seq![]);
    }
    lemma_inv_prefix(s0, zones, evs, evs.len() as int);
    assert(evs.take(evs.len() as int) =~= evs);
    let s = saga_replay(s0, evs);
    if let SagaModel::Active(m) = s {
        assert(all_completed(m.entries)) by {
            assert forall|i: int| 0 <= i < m.entries.len() implies (#[trigger] m.entries[i]).1.completed() by {
                let z = m.entries[i].0;
                assert(has_zone(m.entries, z));
                assert(zones.contains(z));
                assert(zone_covered(evs, z));
                let idx = crate::update_state::zone_index(m.entries, z);
                assert(idx == i);
                let st = lookup(m.entries, z).unwrap();
                lemma_advanced(st, UpdateStep::Alert, UpdateStep::Alert);
            }
        }
    }
}

} // verus!
