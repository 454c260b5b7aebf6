use vstd::prelude::*;
use std::sync::Arc;
use crate::frame::WeatherFrame;
use crate::ids::{LocationZoneCode, UpdateWeatherId};
use crate::update::{NoteAlertsReviewed, NoteLocationUpdateFailure};
use crate::weather_data::{WeatherAlert, ZoneForecast};
use crate::zone::{NoteAlert, NoteForecast, NoteObservation};

verus! {

/// What a zone fetch asks the provider for.
#[derive(Debug, Clone, Copy, PartialEq, Eq, Structural)]
pub enum FetchKind {
    Observation,
    Forecast,
}

/// One fetch that a started run launches.
#[derive(Debug)]
pub struct ZoneFetch {
    pub update_id: UpdateWeatherId,
    pub zone: LocationZoneCode,
    pub kind: FetchKind,
}

/// The fetches a run over `zones` launches: an observation and a forecast per zone,
/// in the zones' order.
pub fn plan_zone_fetches(update_id: &UpdateWeatherId, zones: &Vec<LocationZoneCode>) -> (r: Vec<ZoneFetch>)
    requires
        zones@.len() * 2 <= usize::MAX,
    ensures
        r@.len() == 2 * zones@.len(),
        forall|i: int| 0 <= i < zones@.len() ==> {
            &&& (#[trigger] r@[2 * i]).zone == zones@[i] && r@[2 * i].kind == FetchKind::Observation
                && r@[2 * i].update_id == *update_id
            &&& r@[2 * i + 1].zone == zones@[i] && r@[2 * i + 1].kind == FetchKind::Forecast
                && r@[2 * i + 1].update_id == *update_id
        },
{
    let mut r: Vec<ZoneFetch> = Vec::new();
    let mut i: usize = 0;
    while i < zones.len()
        invariant
            i <= zones.len(),
            zones@.len() * 2 <= usize::MAX,
            r@.len() == 2 * i,
            forall|j: int| 0 <= j < i ==> {
                &&& (#[trigger] r@[2 * j]).zone == zones@[j] && r@[2 * j].kind == FetchKind::Observation
                    && r@[2 * j].update_id == *update_id
                &&& r@[2 * j + 1].zone == zones@[j] && r@[2 * j + 1].kind == FetchKind::Forecast
                    && r@[2 * j + 1].update_id == *update_id
            },
        decreases zones.len() - i,
    {
        let ghost before = r@;
        r.push(ZoneFetch { update_id: update_id.clone(), zone: zones[i].clone(), kind: FetchKind::Observation });
        r.push(ZoneFetch { update_id: update_id.clone(), zone: zones[i].clone(), kind: FetchKind::Forecast });
        assert forall|j: int| 0 <= j < i implies #[trigger] r@[2 * j] == before[2 * j] && r@[2 * j + 1] == before[2 * j + 1] by {}
        i = i + 1;
    }
    r
}

/// How a provider call failed.
#[derive(Debug)]
pub enum ProviderFailure {
    /// The call was cancelled by shutdown; it is not a failure of the zone.
    Cancelled,
    /// The provider failed for good (its message).
    Failed(String),
}

/// The command a finished zone fetch leads to.
#[derive(Debug)]
pub enum FetchCommand {
    Observe(NoteObservation),
    Forecast(NoteForecast),
    Failure(NoteLocationUpdateFailure),
}

/// What an observation fetch leads to: the observation is noted; a failure is noted
/// as the zone's failure in the run; a cancelled fetch leads to nothing.
pub fn observation_outcome(
    update_id: UpdateWeatherId,
    zone: LocationZoneCode,
    outcome: Result<WeatherFrame, ProviderFailure>,
) -> (r: Option<FetchCommand>)
    ensures
        match outcome {
            Ok(frame) => r is Some && match r->Some_0 {
                FetchCommand::Observe(c) => c.zone == zone && c.update_id == update_id && *c.weather == frame,
                _ => false,
            },
            Err(ProviderFailure::Cancelled) => r is None,
            Err(ProviderFailure::Failed(msg)) => r is Some && match r->Some_0 {
                FetchCommand::Failure(c) => c.zone == zone && c.update_id == update_id && c.cause == msg,
                _ => false,
            },
        },
{
    match outcome {
        Ok(frame) => Some(FetchCommand::Observe(NoteObservation::new(zone, update_id, frame))),
        Err(ProviderFailure::Cancelled) => None,
        Err(ProviderFailure::Failed(msg)) => Some(
            FetchCommand::Failure(NoteLocationUpdateFailure { update_id, zone, cause: msg }),
        ),
    }
}

/// What a forecast fetch leads to, as for an observation.
pub fn forecast_outcome(
    update_id: UpdateWeatherId,
    zone: LocationZoneCode,
    outcome: Result<ZoneForecast, ProviderFailure>,
) -> (r: Option<FetchCommand>)
    ensures
        match outcome {
            Ok(forecast) => r is Some && match r->Some_0 {
                FetchCommand::Forecast(c) => c.zone == zone && c.update_id == update_id && *c.forecast == forecast,
                _ => false,
            },
            Err(ProviderFailure::Cancelled) => r is None,
            Err(ProviderFailure::Failed(msg)) => r is Some && match r->Some_0 {
                FetchCommand::Failure(c) => c.zone == zone && c.update_id == update_id && c.cause == msg,
                _ => false,
            },
        },
{
    match outcome {
        Ok(forecast) => Some(FetchCommand::Forecast(NoteForecast::new(zone, update_id, forecast))),
        Err(ProviderFailure::Cancelled) => None,
        Err(ProviderFailure::Failed(msg)) => Some(
            FetchCommand::Failure(NoteLocationUpdateFailure { update_id, zone, cause: msg }),
        ),
    }
}

pub open spec fn in_zones(zones: Seq<LocationZoneCode>, z: Seq<char>) -> bool {
    exists|i: int| 0 <= i < zones.len() && #[trigger] zones[i]@ == z
}

/// The zones an alert affects that are among `zones`, in the alert's order.
pub open spec fn affected_in(a: Seq<LocationZoneCode>, zones: Seq<LocationZoneCode>) -> Seq<LocationZoneCode>
    decreases a.len(),
{
    if a.len() == 0 {
        seq![]
    } else {
        let p = affected_in(a.drop_last(), zones);
        if in_zones(zones, a.last()@) {
            p.push(a.last())
        } else {
            p
        }
    }
}

/// The alert notes for the alerted zones: for each alert in order, each affected zone
/// among `zones`, with that alert.
pub open spec fn alerted_plan(alerts: Seq<Arc<WeatherAlert>>, zones: Seq<LocationZoneCode>) -> Seq<
    (LocationZoneCode, Option<Arc<WeatherAlert>>),
>
    decreases alerts.len(),
{
    if alerts.len() == 0 {
        seq![]
    } else {
        alerted_plan(alerts.drop_last(), zones) + affected_in(alerts.last().affected_zones@, zones).map_values(
            |z: LocationZoneCode| (z, Some(alerts.last())),
        )
    }
}

/// Whether some alert affects zone `z`.
pub open spec fn alerted(alerts: Seq<Arc<WeatherAlert>>, z: Seq<char>) -> bool {
    exists|k: int| 0 <= k < alerts.len() && in_zones((#[trigger] alerts[k]).affected_zones@, z)
}

/// The zones no alert affects, each once, in the order of `zs`.
pub open spec fn unaffected(zs: Seq<LocationZoneCode>, alerts: Seq<Arc<WeatherAlert>>) -> Seq<LocationZoneCode>
    decreases zs.len(),
{
    if zs.len() == 0 {
        seq![]
    } else {
        let p = unaffected(zs.drop_last(), alerts);
        if alerted(alerts, zs.last()@) || in_zones(zs.drop_last(), zs.last()@) {
            p
        } else {
            p.push(zs.last())
        }
    }
}

/// A note's zone and alert.
pub open spec fn note_target(c: NoteAlert) -> (LocationZoneCode, Option<Arc<WeatherAlert>>) {
    (c.zone, c.alert)
}

fn contains_zone(zones: &Vec<LocationZoneCode>, upto: usize, z: &LocationZoneCode) -> (r: bool)
    requires
        upto <= zones@.len(),
    ensures
        r == in_zones(zones@.take(upto as int), z@),
{
    let mut i: usize = 0;
    while i < upto
        invariant
            i <= upto <= zones@.len(),
            forall|j: int| 0 <= j < i ==> (#[trigger] zones@[j])@ != z@,
        decreases upto - i,
    {
        if zones[i] == *z {
            assert(zones@.take(upto as int)[i as int]@ == z@);
            return true;
        }
        i = i + 1;
    }
    assert forall|j: int| 0 <= j < upto implies (#[trigger] zones@.take(upto as int)[j])@ != z@ by {
        assert(zones@.take(upto as int)[j] == zones@[j]);
    }
    false
}

fn is_alerted(alerts: &Vec<Arc<WeatherAlert>>, z: &LocationZoneCode) -> (r: bool)
    ensures
        r == alerted(alerts@, z@),
{
    let mut k: usize = 0;
    while k < alerts.len()
        invariant
            k <= alerts@.len(),
            forall|j: int| 0 <= j < k ==> !in_zones((#[trigger] alerts@[j]).affected_zones@, z@),
        decreases alerts.len() - k,
    {
        let affected = &alerts[k].affected_zones;
        if contains_zone(affected, affected.len(), z) {
            assert(affected@.take(affected@.len() as int) =~= affected@);
            return true;
        }
        assert(affected@.take(affected@.len() as int) =~= affected@);
        k = k + 1;
    }
    false
}

/// The alert notes of a run over `zones` once the active alerts are known: each
/// alerted zone gets a note with its alert (once per alert that affects it, alerts in
/// order), then each other zone, once, a note with no alert. Every note carries the
/// run's id.
pub fn alert_notes(
    update_id: &UpdateWeatherId,
    zones: &Vec<LocationZoneCode>,
    alerts: &Vec<Arc<WeatherAlert>>,
) -> (r: Vec<NoteAlert>)
    ensures
        r@.map_values(|c: NoteAlert| note_target(c)) == alerted_plan(alerts@, zones@) + unaffected(zones@, alerts@).map_values(
            |z: LocationZoneCode| (z, None::<Arc<WeatherAlert>>),
        ),
        forall|i: int| 0 <= i < r@.len() ==> (#[trigger] r@[i]).update_id == *update_id,
{
    let mut r: Vec<NoteAlert> = Vec::new();
    let mut k: usize = 0;
    while k < alerts.len()
        invariant
            k <= alerts@.len(),
            r@.map_values(|c: NoteAlert| note_target(c)) == alerted_plan(alerts@.take(k as int), zones@),
            forall|i: int| 0 <= i < r@.len() ==> (#[trigger] r@[i]).update_id == *update_id,
        decreases alerts.len() - k,
    {
        let alert = &alerts[k];
        let affected = &alert.affected_zones;
        let ghost base = r@.map_values(|c: NoteAlert| note_target(c));
        let mut m: usize = 0;
        while m < affected.len()
            invariant
                m <= affected@.len(),
                k < alerts@.len(),
                *alert == alerts@[k as int],
                *affected == alert.affected_zones,
                r@.map_values(|c: NoteAlert| note_target(c)) == base + affected_in(affected@.take(m as int), zones@).map_values(
                    |z: LocationZoneCode| (z, Some(*alert)),
                ),
                forall|i: int| 0 <= i < r@.len() ==> (#[trigger] r@[i]).update_id == *update_id,
            decreases affected.len() - m,
        {
            let z = &affected[m];
            assert(affected@.take(m + 1).drop_last() =~= affected@.take(m as int));
            assert(affected@.take(m + 1).last() == *z);
            let ghost before = r@;
            if contains_zone(zones, zones.len(), z) {
                assert(zones@.take(zones@.len() as int) =~= zones@);
                r.push(NoteAlert { zone: z.clone(), update_id: update_id.clone(), alert: Some(crate::events::share(alert)) });
                assert(r@.map_values(|c: NoteAlert| note_target(c)) =~= before.map_values(|c: NoteAlert| note_target(c)).push((*z, Some(*alert))));
            } else {
                assert(zones@.take(zones@.len() as int) =~= zones@);
            }
            assert(affected_in(affected@.take(m + 1), zones@).map_values(|z: LocationZoneCode| (z, Some(*alert)))
                =~= if in_zones(zones@, z@) {
                    affected_in(affected@.take(m as int), zones@).map_values(|z: LocationZoneCode| (z, Some(*alert))).push((*z, Some(*alert)))
                } else {
                    affected_in(affected@.take(m as int), zones@).map_values(|z: LocationZoneCode| (z, Some(*alert)))
                });
            m = m + 1;
        }
        assert(affected@.take(m as int) =~= affected@);
        assert(alerts@.take(k + 1).drop_last() =~= alerts@.take(k as int));
        assert(alerts@.take(k + 1).last() == *alert);
        k = k + 1;
    }
    assert(alerts@.take(k as int) =~= alerts@);
    let ghost head = r@.map_values(|c: NoteAlert| note_target(c));
    let mut i: usize = 0;
    while i < zones.len()
        invariant
            i <= zones@.len(),
            r@.map_values(|c: NoteAlert| note_target(c)) == head + unaffected(zones@.take(i as int), alerts@).map_values(
                |z: LocationZoneCode| (z, None::<Arc<WeatherAlert>>),
            ),
            forall|j: int| 0 <= j < r@.len() ==> (#[trigger] r@[j]).update_id == *update_id,
        decreases zones.len() - i,
    {
        let z = &zones[i];
        assert(zones@.take(i + 1).drop_last() =~= zones@.take(i as int));
        assert(zones@.take(i + 1).last() == *z);
        let ghost before = r@;
        let seen = contains_zone(zones, i, z);
        if !is_alerted(alerts, z) && !seen {
            r.push(NoteAlert { zone: z.clone(), update_id: update_id.clone(), alert: None });
            assert(r@.map_values(|c: NoteAlert| note_target(c)) =~= before.map_values(|c: NoteAlert| note_target(c)).push((*z, None::<Arc<WeatherAlert>>)));
        }
        assert(unaffected(zones@.take(i + 1), alerts@).map_values(|z: LocationZoneCode| (z, None::<Arc<WeatherAlert>>))
            =~= if !alerted(alerts@, z@) && !in_zones(zones@.take(i as int), z@) {
                unaffected(zones@.take(i as int), alerts@).map_values(|z: LocationZoneCode| (z, None::<Arc<WeatherAlert>>)).push((*z, None::<Arc<WeatherAlert>>))
            } else {
                unaffected(zones@.take(i as int), alerts@).map_values(|z: LocationZoneCode| (z, None::<Arc<WeatherAlert>>))
            });
        i = i + 1;
    }
    assert(zones@.take(i as int) =~= zones@);
    r
}

/// The failure notes for the zones whose alert note could not be recorded.
pub fn failure_notes(update_id: &UpdateWeatherId, failures: Vec<(LocationZoneCode, String)>) -> (r: Vec<
    NoteLocationUpdateFailure,
>)
    ensures
        r@.len() == failures@.len(),
        forall|i: int| 0 <= i < r@.len() ==> (#[trigger] r@[i]).update_id == *update_id && r@[i].zone
            == failures@[i].0 && r@[i].cause == failures@[i].1,
{
    let mut r: Vec<NoteLocationUpdateFailure> = Vec::new();
    let mut i: usize = 0;
    while i < failures.len()
        invariant
            i <= failures@.len(),
            r@.len() == i,
            forall|j: int| 0 <= j < i ==> (#[trigger] r@[j]).update_id == *update_id && r@[j].zone == failures@[j].0
                && r@[j].cause == failures@[j].1,
        decreases failures.len() - i,
    {
        r.push(NoteLocationUpdateFailure {
            update_id: update_id.clone(),
            zone: failures[i].0.clone(),
            cause: failures[i].1.clone(),
        });
        i = i + 1;
    }
    r
}

/// The commands a run issues once the active alerts were fetched (or not).
#[derive(Debug)]
pub struct AlertReview {
    /// One alert note per zone (see `alert_notes`).
    pub notes: Vec<NoteAlert>,
    /// Zones that are to be marked failed.
    pub failures: Vec<NoteLocationUpdateFailure>,
    /// The review that lets the run finish, issued after the notes and failures.
    pub review: Option<NoteAlertsReviewed>,
}

/// What a run over `zones` issues after its alerts fetch: with the alerts, the alert
/// notes and the review; if the fetch failed, each zone (once) marked failed with the
/// provider's message, and the review, so that the run still finishes; if it was
/// cancelled, nothing.
pub fn alerts_outcome(
    update_id: &UpdateWeatherId,
    zones: &Vec<LocationZoneCode>,
    fetched: Result<Vec<Arc<WeatherAlert>>, ProviderFailure>,
) -> (r: AlertReview)
    ensures
        match fetched {
            Ok(alerts) => {
                &&& r.notes@.map_values(|c: NoteAlert| note_target(c)) == alerted_plan(alerts@, zones@)
                    + unaffected(zones@, alerts@).map_values(|z: LocationZoneCode| (z, None::<Arc<WeatherAlert>>))
                &&& forall|i: int| 0 <= i < r.notes@.len() ==> (#[trigger] r.notes@[i]).update_id == *update_id
                &&& r.failures@.len() == 0
                &&& r.review == Some(NoteAlertsReviewed(*update_id))
            },
            Err(ProviderFailure::Failed(msg)) => {
                &&& r.notes@.len() == 0
                &&& r.failures@.len() == unaffected(zones@, seq![]).len()
                &&& forall|i: int| 0 <= i < r.failures@.len() ==> (#[trigger] r.failures@[i]).update_id == *update_id
                    && r.failures@[i].zone == unaffected(zones@, seq![])[i] && r.failures@[i].cause@ == msg@
                &&& r.review == Some(NoteAlertsReviewed(*update_id))
            },
            Err(ProviderFailure::Cancelled) => r.notes@.len() == 0 && r.failures@.len() == 0 && r.review is None,
        },
{
    match fetched {
        Ok(alerts) => {
            let notes = alert_notes(update_id, zones, &alerts);
            AlertReview { notes, failures: Vec::new(), review: Some(NoteAlertsReviewed(update_id.clone())) }
        },
        Err(ProviderFailure::Cancelled) => AlertReview { notes: Vec::new(), failures: Vec::new(), review: None },
        Err(ProviderFailure::Failed(msg)) => {
            let none: Vec<Arc<WeatherAlert>> = Vec::new();
            let distinct = alert_notes(update_id, zones, &none);
            let ghost zs = unaffected(zones@, seq![]);
            assert(none@ =~= Seq::<Arc<WeatherAlert>>::empty());
            assert(alerted_plan(none@, zones@) =~= Seq::empty());
            assert(distinct@.map_values(|c: NoteAlert| note_target(c)) =~= zs.map_values(
                |z: LocationZoneCode| (z, None::<Arc<WeatherAlert>>),
            ));
            assert forall|j: int| 0 <= j < zs.len() implies (#[trigger] distinct@[j]).zone == zs[j] by {
                assert(distinct@.map_values(|c: NoteAlert| note_target(c))[j] == note_target(distinct@[j]));
                assert(zs.map_values(|z: LocationZoneCode| (z, None::<Arc<WeatherAlert>>))[j] == (zs[j], None::<Arc<WeatherAlert>>));
            }
            let mut failures: Vec<NoteLocationUpdateFailure> = Vec::new();
            let mut i: usize = 0;
            while i < distinct.len()
                invariant
                    i <= distinct@.len(),
                    distinct@.len() == zs.len(),
                    zs == unaffected(zones@, seq![]),
                    forall|j: int| 0 <= j < zs.len() ==> (#[trigger] distinct@[j]).zone == zs[j],
                    failures@.len() == i,
                    forall|j: int| 0 <= j < i ==> (#[trigger] failures@[j]).update_id == *update_id
                        && failures@[j].zone == zs[j] && failures@[j].cause@ == msg@,
                decreases distinct.len() - i,
            {
                failures.push(NoteLocationUpdateFailure {
                    update_id: update_id.clone(),
                    zone: distinct[i].zone.clone(),
                    cause: msg.clone(),
                });
                i = i + 1;
            }
            AlertReview { notes: Vec::new(), failures, review: Some(NoteAlertsReviewed(update_id.clone())) }
        },
    }
}

} // verus!
