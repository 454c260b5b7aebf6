use vstd::prelude::*;
use crate::events::{WeatherEvent, zone_codes};
use crate::ids::{LocationZoneCode, UpdateWeatherId};
use crate::status::{LocationUpdateStatus, UpdateStep};

verus! {

/// A zone's code paired with where the zone stands.
pub type StatusEntries = Seq<(Seq<char>, LocationUpdateStatus)>;

pub open spec fn unique_zones(e: StatusEntries) -> bool {
    forall|i: int, j: int|
        0 <= i < e.len() && 0 <= j < e.len() && #[trigger] e[i].0 == #[trigger] e[j].0 ==> i == j
}

pub open spec fn has_zone(e: StatusEntries, z: Seq<char>) -> bool {
    exists|i: int| 0 <= i < e.len() && #[trigger] e[i].0 == z
}

pub open spec fn zone_index(e: StatusEntries, z: Seq<char>) -> int {
    choose|i: int| 0 <= i < e.len() && #[trigger] e[i].0 == z
}

/// The status recorded for zone `z`, if the zone is known.
pub open spec fn lookup(e: StatusEntries, z: Seq<char>) -> Option<LocationUpdateStatus> {
    if has_zone(e, z) {
        Some(e[zone_index(e, z)].1)
    } else {
        None
    }
}

/// The entries with zone `z` set to `st`; an unknown zone is appended.
pub open spec fn with_status(e: StatusEntries, z: Seq<char>, st: LocationUpdateStatus) -> StatusEntries {
    if has_zone(e, z) {
        e.update(zone_index(e, z), (z, st))
    } else {
        e.push((z, st))
    }
}

pub open spec fn all_completed(e: StatusEntries) -> bool {
    forall|i: int| 0 <= i < e.len() ==> (#[trigger] e[i]).1.completed()
}

/// Entries for a list of zones, each in progress with no step; repeats are skipped.
pub open spec fn initial_entries(zones: Seq<Seq<char>>) -> StatusEntries
    decreases zones.len(),
{
    if zones.len() == 0 {
        seq![]
    } else {
        let e = initial_entries(zones.drop_last());
        if has_zone(e, zones.last()) {
            e
        } else {
            e.push((zones.last(), LocationUpdateStatus::spec_initial()))
        }
    }
}

/// Which zones a listing picks, by status.
#[derive(Debug, Clone, Copy, PartialEq, Eq, Structural)]
pub enum ZoneSelector {
    InProgress,
    Succeeded,
    Failed,
}

pub open spec fn selects(which: ZoneSelector, st: LocationUpdateStatus) -> bool {
    match which {
        ZoneSelector::InProgress => st is InProgress,
        ZoneSelector::Succeeded => st is Succeeded,
        ZoneSelector::Failed => st is Failed,
    }
}

/// The zones, in entry order, whose status `which` picks.
pub open spec fn zones_in(e: StatusEntries, which: ZoneSelector) -> Seq<Seq<char>>
    decreases e.len(),
{
    if e.len() == 0 {
        seq![]
    } else {
        let p = zones_in(e.drop_last(), which);
        if selects(which, e.last().1) {
            p.push(e.last().0)
        } else {
            p
        }
    }
}

/// No entry is in progress with both observation and forecast recorded.
pub open spec fn no_stuck_entry(e: StatusEntries) -> bool {
    forall|i: int| 0 <= i < e.len() ==> !(#[trigger] e[i]).1.stuck()
}

/// The abstract state of an active run.
pub struct StatusModel {
    pub entries: StatusEntries,
    pub alerts_reviewed: bool,
}

/// The abstract state of a saga run.
pub enum SagaModel {
    Quiescent,
    Active(StatusModel),
    Finished,
}

/// A run is finished once alerts were reviewed and every zone is terminal.
pub open spec fn run_finished(m: StatusModel) -> bool {
    m.alerts_reviewed && all_completed(m.entries)
}

/// Records `step` for zone `z`; a zone outside the run is ignored.
pub open spec fn advance_model(m: StatusModel, z: Seq<char>, step: UpdateStep) -> StatusModel {
    match lookup(m.entries, z) {
        Some(s) => StatusModel {
            entries: with_status(m.entries, z, s.advanced(step)),
            alerts_reviewed: m.alerts_reviewed,
        },
        None => m,
    }
}

/// Marks zone `z` failed, unless it already is terminal; a zone outside the run is
/// ignored.
pub open spec fn fail_model(m: StatusModel, z: Seq<char>) -> StatusModel {
    match lookup(m.entries, z) {
        Some(s) if !s.completed() => StatusModel {
            entries: with_status(m.entries, z, LocationUpdateStatus::Failed),
            alerts_reviewed: m.alerts_reviewed,
        },
        _ => m,
    }
}

/// An active run's state after one event.
pub open spec fn status_step(m: StatusModel, ev: WeatherEvent) -> StatusModel {
    match ev {
        WeatherEvent::ObservationUpdated { zone, .. } => advance_model(m, zone@, UpdateStep::Observation),
        WeatherEvent::ForecastUpdated { zone, .. } => advance_model(m, zone@, UpdateStep::Forecast),
        WeatherEvent::AlertActivated { zone, .. } => advance_model(m, zone@, UpdateStep::Alert),
        WeatherEvent::AlertDeactivated { zone, .. } => advance_model(m, zone@, UpdateStep::Alert),
        WeatherEvent::AlertsReviewed { .. } => StatusModel { entries: m.entries, alerts_reviewed: true },
        WeatherEvent::UpdateLocationFailed { zone, .. } => fail_model(m, zone@),
        WeatherEvent::UpdateStarted { .. } => m,
    }
}

/// The saga's transition function.
pub open spec fn saga_step(s: SagaModel, ev: WeatherEvent) -> SagaModel {
    match s {
        SagaModel::Quiescent => match ev {
            WeatherEvent::UpdateStarted { zones, .. } => SagaModel::Active(
                StatusModel { entries: initial_entries(zone_codes(zones@)), alerts_reviewed: false },
            ),
            _ => SagaModel::Quiescent,
        },
        SagaModel::Active(m) => {
            let m2 = status_step(m, ev);
            if run_finished(m2) {
                SagaModel::Finished
            } else {
                SagaModel::Active(m2)
            }
        },
        SagaModel::Finished => SagaModel::Finished,
    }
}

/// The saga state after replaying `evs` in order from `s`.
pub open spec fn saga_replay(s: SagaModel, evs: Seq<WeatherEvent>) -> SagaModel
    decreases evs.len(),
{
    if evs.len() == 0 {
        s
    } else {
        saga_step(saga_replay(s, evs.drop_last()), evs.last())
    }
}

/// Setting a zone's status keeps zones unique, sets that zone and no other.
pub proof fn lemma_with_status(e: StatusEntries, z: Seq<char>, st: LocationUpdateStatus)
    requires
        unique_zones(e),
    ensures
        unique_zones(with_status(e, z, st)),
        lookup(with_status(e, z, st), z) == Some(st),
        forall|y: Seq<char>| y != z ==> #[trigger] lookup(with_status(e, z, st), y) == lookup(e, y),
        forall|y: Seq<char>| #[trigger] has_zone(with_status(e, z, st), y) == (has_zone(e, y) || y == z),
        with_status(e, z, st).len() >= e.len(),
{
    let e2 = with_status(e, z, st);
    if has_zone(e, z) {
        let k = zone_index(e, z);
        assert(forall|i: int| 0 <= i < e.len() ==> #[trigger] e2[i].0 == e[i].0);
        assert(e2[k].0 == z);
        assert forall|y: Seq<char>| y != z implies #[trigger] lookup(e2, y) == lookup(e, y) by {
            if has_zone(e, y) {
                let i = zone_index(e, y);
                assert(e2[i].0 == y);
                let j = zone_index(e2, y);
                assert(e[j].0 == y);
            } else {
                if has_zone(e2, y) {
                    let j = zone_index(e2, y);
                    assert(e[j].0 == y);
                }
            }
        }
        assert forall|y: Seq<char>| #[trigger] has_zone(e2, y) == (has_zone(e, y) || y == z) by {
            if has_zone(e, y) {
                let i = zone_index(e, y);
                assert(e2[i].0 == y);
            }
            if has_zone(e2, y) {
                let j = zone_index(e2, y);
                assert(e[j].0 == y);
            }
        }
        assert(has_zone(e2, z));
        let j = zone_index(e2, z);
        assert(e[j].0 == z);
    } else {
        let n = e.len() as int;
        assert(e2[n].0 == z);
        assert(forall|i: int| 0 <= i < n ==> #[trigger] e2[i] == e[i]);
        assert(unique_zones(e2)) by {
            assert forall|i: int, j: int|
                0 <= i < e2.len() && 0 <= j < e2.len() && #[trigger] e2[i].0 == #[trigger] e2[j].0 implies i == j by {
                if i < n && j < n {
                    assert(e[i].0 == e[j].0);
                } else if i < n {
                    assert(e[i].0 == z);
                } else if j < n {
                    assert(e[j].0 == z);
                }
            }
        }
        assert(has_zone(e2, z));
        let j = zone_index(e2, z);
        assert(j == n) by {
            if j < n {
                assert(e[j].0 == z);
            }
        }
        assert forall|y: Seq<char>| y != z implies #[trigger] lookup(e2, y) == lookup(e, y) by {
            if has_zone(e, y) {
                let i = zone_index(e, y);
                assert(e2[i].0 == y);
                let j2 = zone_index(e2, y);
                if j2 < n {
                    assert(e[j2].0 == y);
                }
            } else {
                if has_zone(e2, y) {
                    let j2 = zone_index(e2, y);
                    if j2 < n {
                        assert(e[j2].0 == y);
                    }
                }
            }
        }
        assert forall|y: Seq<char>| #[trigger] has_zone(e2, y) == (has_zone(e, y) || y == z) by {
            if has_zone(e, y) {
                let i = zone_index(e, y);
                assert(e2[i].0 == y);
            }
            if has_zone(e2, y) {
                let j2 = zone_index(e2, y);
                if j2 < n {
                    assert(e[j2].0 == y);
                }
            }
        }
    }
}

/// How a lookup in `e` relates to a lookup in `e` without its last entry.
pub proof fn lemma_lookup_last(e: StatusEntries, z: Seq<char>)
    requires
        unique_zones(e),
        e.len() > 0,
    ensures
        unique_zones(e.drop_last()),
        e.last().0 == z ==> lookup(e, z) == Some(e.last().1) && !has_zone(e.drop_last(), z),
        e.last().0 != z ==> lookup(e, z) == lookup(e.drop_last(), z),
{
    let p = e.drop_last();
    let n = e.len() - 1;
    assert forall|i: int| 0 <= i < p.len() implies #[trigger] p[i] == e[i] by {}
    assert(unique_zones(p)) by {
        assert forall|i: int, j: int|
            0 <= i < p.len() && 0 <= j < p.len() && #[trigger] p[i].0 == #[trigger] p[j].0 implies i == j by {
            assert(e[i].0 == e[j].0);
        }
    }
    if e.last().0 == z {
        assert(e[n].0 == z);
        assert(has_zone(e, z));
        let k = zone_index(e, z);
        assert(e[k].0 == e[n].0);
        if has_zone(p, z) {
            let j = zone_index(p, z);
            assert(e[j].0 == e[n].0);
        }
    } else {
        if has_zone(e, z) {
            let k = zone_index(e, z);
            assert(k != n);
            assert(p[k].0 == z);
            let j = zone_index(p, z);
            assert(e[j].0 == z);
        }
        if has_zone(p, z) {
            let j = zone_index(p, z);
            assert(e[j].0 == z);
        }
    }
}

/// A zone is listed by `which` exactly when it is known with a status `which` picks.
pub proof fn lemma_zones_in(e: StatusEntries, which: ZoneSelector, z: Seq<char>)
    requires
        unique_zones(e),
    ensures
        zones_in(e, which).contains(z) <==> (lookup(e, z) is Some && selects(which, lookup(e, z)->Some_0)),
    decreases e.len(),
{
    if e.len() == 0 {
        assert(!has_zone(e, z));
    } else {
        lemma_lookup_last(e, z);
        lemma_zones_in(e.drop_last(), which, z);
        let p = zones_in(e.drop_last(), which);
        if selects(which, e.last().1) {
            assert(p.push(e.last().0).contains(z) <==> (p.contains(z) || e.last().0 == z)) by {
                if p.push(e.last().0).contains(z) {
                    let k = choose|k: int| 0 <= k < p.len() + 1 && p.push(e.last().0)[k] == z;
                    if k < p.len() {
                        assert(p[k] == z);
                    }
                }
                if p.contains(z) {
                    let k = choose|k: int| 0 <= k < p.len() && p[k] == z;
                    assert(p.push(e.last().0)[k] == z);
                }
                if e.last().0 == z {
                    assert(p.push(e.last().0)[p.len() as int] == z);
                }
            }
        }
    }
}

/// Lemma: the entries of a list of distinct-or-not zones have unique zones, and
/// every zone of the list is among them.
pub proof fn lemma_initial_entries(zones: Seq<Seq<char>>)
    ensures
        unique_zones(initial_entries(zones)),
        forall|z: Seq<char>| #[trigger] has_zone(initial_entries(zones), z) <==> zones.contains(z),
        forall|i: int| 0 <= i < initial_entries(zones).len()
            ==> (#[trigger] initial_entries(zones)[i]).1 == LocationUpdateStatus::spec_initial(),
    decreases zones.len(),
{
    if zones.len() > 0 {
        let p = zones.drop_last();
        lemma_initial_entries(p);
        let e = initial_entries(p);
        let z = zones.last();
        if !has_zone(e, z) {
            lemma_with_status(e, z, LocationUpdateStatus::spec_initial());
            assert(with_status(e, z, LocationUpdateStatus::spec_initial()) == e.push((z, LocationUpdateStatus::spec_initial())));
        }
        assert forall|y: Seq<char>| #[trigger] has_zone(initial_entries(zones), y) <==> zones.contains(y) by {
            if zones.contains(y) {
                let k = choose|k: int| 0 <= k < zones.len() && zones[k] == y;
                if k < zones.len() - 1 {
                    assert(p[k] == y);
                    assert(p.contains(y));
                }
            }
            if p.contains(y) {
                let k = choose|k: int| 0 <= k < p.len() && p[k] == y;
                assert(zones[k] == y);
            }
        }
    }
}

/// One zone and where it stands in a run.
#[derive(Debug)]
pub struct LocationStatus {
    pub zone: LocationZoneCode,
    pub status: LocationUpdateStatus,
}

impl LocationStatus {
    pub fn new(zone: LocationZoneCode) -> (r: Self)
        ensures
            r.zone == zone,
            r.status == LocationUpdateStatus::spec_initial(),
    {
        LocationStatus { zone, status: LocationUpdateStatus::default() }
    }
}

/// Which of the saga's three states a value is in.
#[derive(Debug, Clone, Copy, PartialEq, Eq, Structural)]
pub enum UpdateWeatherStateDiscriminants {
    Quiescent,
    Active,
    Finished,
}

/// The per-zone statuses of an active run, and whether alerts were reviewed.
#[derive(Debug)]
pub struct WeatherUpdateStatus {
    pub location_statuses: Vec<LocationStatus>,
    pub alerts_reviewed: bool,
}

impl WeatherUpdateStatus {
    pub open spec fn entries(&self) -> StatusEntries {
        self.location_statuses@.map_values(|ls: LocationStatus| (ls.zone@, ls.status))
    }

    pub open spec fn model(&self) -> StatusModel {
        StatusModel { entries: self.entries(), alerts_reviewed: self.alerts_reviewed }
    }

    /// Each zone appears once, and no zone is left in progress with every step that
    /// success needs.
    pub open spec fn wf(&self) -> bool {
        unique_zones(self.entries()) && no_stuck_entry(self.entries())
    }

    /// A run over `zones`, each in progress with no step, alerts not reviewed.
    pub fn new(zones: Vec<LocationZoneCode>) -> (r: Self)
        ensures
            r.wf(),
            r.model() == (StatusModel { entries: initial_entries(zone_codes(zones@)), alerts_reviewed: false }),
            forall|z: Seq<char>| #[trigger] lookup(r.model().entries, z) == if zone_codes(zones@).contains(z) {
                Some(LocationUpdateStatus::spec_initial())
            } else {
                None
            },
    {
        let mut status = WeatherUpdateStatus { location_statuses: Vec::new(), alerts_reviewed: false };
        let mut i: usize = 0;
        assert(status.entries() =~= initial_entries(zone_codes(zones@.take(0))));
        while i < zones.len()
            invariant
                i <= zones.len(),
                !status.alerts_reviewed,
                status.wf(),
                status.entries() == initial_entries(zone_codes(zones@.take(i as int))),
            decreases zones.len() - i,
        {
            let ghost before = status.entries();
            let zone = &zones[i];
            assert(zone_codes(zones@.take(i + 1)).drop_last() =~= zone_codes(zones@.take(i as int)));
            assert(zone_codes(zones@.take(i + 1)).last() == zone@);
            match status.find(zone) {
                Some(_) => {},
                None => {
                    status.location_statuses.push(LocationStatus::new(zone.clone()));
                    assert(status.entries() =~= before.push((zone@, LocationUpdateStatus::spec_initial())));
                    proof {
                        lemma_with_status(before, zone@, LocationUpdateStatus::spec_initial());
                    }
                },
            }
            i = i + 1;
        }
        assert(zones@.take(i as int) =~= zones@);
        proof {
            lemma_initial_entries(zone_codes(zones@));
        }
        status
    }

    /// The position of `zone`'s entry, if it has one.
    fn find(&self, zone: &LocationZoneCode) -> (r: Option<usize>)
        requires
            self.wf(),
        ensures
            match r {
                Some(i) => i < self.entries().len() && i == zone_index(self.entries(), zone@)
                    && has_zone(self.entries(), zone@),
                None => !has_zone(self.entries(), zone@),
            },
    {
        let mut i: usize = 0;
        while i < self.location_statuses.len()
            invariant
                i <= self.location_statuses.len(),
                self.wf(),
                forall|j: int| 0 <= j < i ==> (#[trigger] self.entries()[j]).0 != zone@,
            decreases self.location_statuses.len() - i,
        {
            if self.location_statuses[i].zone == *zone {
                assert(self.entries()[i as int].0 == zone@);
                let ghost k = zone_index(self.entries(), zone@);
                assert(self.entries()[k].0 == zone@);
                assert(unique_zones(self.entries()));
                assert(k == i);
                return Some(i);
            }
            assert(self.entries()[i as int].0 != zone@);
            i = i + 1;
        }
        None
    }

    /// Sets `zone`'s status, appending the zone if it is unknown.
    fn set_status(&mut self, zone: &LocationZoneCode, st: LocationUpdateStatus)
        requires
            old(self).wf(),
            !st.stuck(),
        ensures
            final(self).wf(),
            final(self).alerts_reviewed == old(self).alerts_reviewed,
            final(self).entries() == with_status(old(self).entries(), zone@, st),
    {
        let ghost before = self.entries();
        proof {
            lemma_with_status(before, zone@, st);
        }
        match self.find(zone) {
            Some(i) => {
                self.location_statuses.set(i, LocationStatus { zone: zone.clone(), status: st });
                assert(self.entries() =~= before.update(i as int, (zone@, st)));
                assert forall|j: int| 0 <= j < self.entries().len() implies !(#[trigger] self.entries()[j]).1.stuck() by {
                    if j != i {
                        assert(self.entries()[j] == before[j]);
                    }
                }
            },
            None => {
                self.location_statuses.push(LocationStatus { zone: zone.clone(), status: st });
                assert(self.entries() =~= before.push((zone@, st)));
                assert forall|j: int| 0 <= j < self.entries().len() implies !(#[trigger] self.entries()[j]).1.stuck() by {
                    if j < before.len() {
                        assert(self.entries()[j] == before[j]);
                    }
                }
            },
        }
    }

    /// The status recorded for `zone`.
    pub fn status_for(&self, zone: &LocationZoneCode) -> (r: Option<LocationUpdateStatus>)
        requires
            self.wf(),
        ensures
            r == lookup(self.model().entries, zone@),
    {
        match self.find(zone) {
            Some(i) => Some(self.location_statuses[i].status),
            None => None,
        }
    }

    fn zones_with(&self, which: ZoneSelector) -> (r: Vec<LocationZoneCode>)
        ensures
            zone_codes(r@) == zones_in(self.entries(), which),
    {
        let mut r: Vec<LocationZoneCode> = Vec::new();
        let mut i: usize = 0;
        while i < self.location_statuses.len()
            invariant
                i <= self.location_statuses.len(),
                zone_codes(r@) == zones_in(self.entries().take(i as int), which),
            decreases self.location_statuses.len() - i,
        {
            let ghost e = self.entries();
            assert(e.take(i + 1).drop_last() =~= e.take(i as int));
            assert(e.take(i + 1).last() == e[i as int]);
            let ls = &self.location_statuses[i];
            let picked = match which {
                ZoneSelector::InProgress => match ls.status {
                    LocationUpdateStatus::InProgress(_) => true,
                    _ => false,
                },
                ZoneSelector::Succeeded => match ls.status {
                    LocationUpdateStatus::Succeeded => true,
                    _ => false,
                },
                ZoneSelector::Failed => match ls.status {
                    LocationUpdateStatus::Failed => true,
                    _ => false,
                },
            };
            if picked {
                let ghost before = r@;
                r.push(ls.zone.clone());
                assert(zone_codes(r@) =~= zone_codes(before).push(ls.zone@));
            }
            i = i + 1;
        }
        assert(self.entries().take(i as int) =~= self.entries());
        r
    }

    /// The zones still in progress, in the order they were added.
    pub fn active_zones(&self) -> (r: Vec<LocationZoneCode>)
        requires
            self.wf(),
        ensures
            zone_codes(r@) == zones_in(self.model().entries, ZoneSelector::InProgress),
            forall|z: Seq<char>| #[trigger] zone_codes(r@).contains(z) <==> (lookup(self.model().entries, z) is Some
                && selects(ZoneSelector::InProgress, lookup(self.model().entries, z)->Some_0)),
    {
        let r = self.zones_with(ZoneSelector::InProgress);
        proof {
            assert forall|z: Seq<char>| #[trigger] zone_codes(r@).contains(z) <==> (lookup(self.model().entries, z) is Some
                && selects(ZoneSelector::InProgress, lookup(self.model().entries, z)->Some_0)) by {
                lemma_zones_in(self.model().entries, ZoneSelector::InProgress, z);
            }
        }
        r
    }

    /// The zones that succeeded, in the order they were added.
    pub fn succeeded_zones(&self) -> (r: Vec<LocationZoneCode>)
        requires
            self.wf(),
        ensures
            zone_codes(r@) == zones_in(self.model().entries, ZoneSelector::Succeeded),
            forall|z: Seq<char>| #[trigger] zone_codes(r@).contains(z) <==> (lookup(self.model().entries, z) is Some
                && selects(ZoneSelector::Succeeded, lookup(self.model().entries, z)->Some_0)),
    {
        let r = self.zones_with(ZoneSelector::Succeeded);
        proof {
            assert forall|z: Seq<char>| #[trigger] zone_codes(r@).contains(z) <==> (lookup(self.model().entries, z) is Some
                && selects(ZoneSelector::Succeeded, lookup(self.model().entries, z)->Some_0)) by {
                lemma_zones_in(self.model().entries, ZoneSelector::Succeeded, z);
            }
        }
        r
    }

    /// The zones that failed, in the order they were added.
    pub fn failed_zones(&self) -> (r: Vec<LocationZoneCode>)
        requires
            self.wf(),
        ensures
            zone_codes(r@) == zones_in(self.model().entries, ZoneSelector::Failed),
            forall|z: Seq<char>| #[trigger] zone_codes(r@).contains(z) <==> (lookup(self.model().entries, z) is Some
                && selects(ZoneSelector::Failed, lookup(self.model().entries, z)->Some_0)),
    {
        let r = self.zones_with(ZoneSelector::Failed);
        proof {
            assert forall|z: Seq<char>| #[trigger] zone_codes(r@).contains(z) <==> (lookup(self.model().entries, z) is Some
                && selects(ZoneSelector::Failed, lookup(self.model().entries, z)->Some_0)) by {
                lemma_zones_in(self.model().entries, ZoneSelector::Failed, z);
            }
        }
        r
    }

    /// Whether `zone` is known and active while every other zone is terminal.
    pub fn is_only_active_zone(&self, zone: &LocationZoneCode) -> (r: bool)
        requires
            self.wf(),
        ensures
            r == (match lookup(self.model().entries, zone@) {
                Some(s) => !s.completed(),
                None => false,
            } && forall|i: int|
                0 <= i < self.model().entries.len() && (#[trigger] self.model().entries[i]).0 != zone@
                    ==> self.model().entries[i].1.completed()),
    {
        let active = match self.status_for(zone) {
            Some(s) => s.is_active(),
            None => false,
        };
        if !active {
            return false;
        }
        let mut i: usize = 0;
        while i < self.location_statuses.len()
            invariant
                i <= self.location_statuses.len(),
                forall|j: int|
                    0 <= j < i && (#[trigger] self.entries()[j]).0 != zone@ ==> self.entries()[j].1.completed(),
            decreases self.location_statuses.len() - i,
        {
            let ls = &self.location_statuses[i];
            if !(ls.zone == *zone) && !ls.status.is_completed() {
                assert(self.entries()[i as int].0 != zone@);
                return false;
            }
            i = i + 1;
        }
        true
    }

    /// Whether every zone is succeeded or failed.
    pub fn all_completed(&self) -> (r: bool)
        ensures
            r == all_completed(self.model().entries),
    {
        let mut i: usize = 0;
        while i < self.location_statuses.len()
            invariant
                i <= self.location_statuses.len(),
                forall|j: int| 0 <= j < i ==> (#[trigger] self.entries()[j]).1.completed(),
            decreases self.location_statuses.len() - i,
        {
            if !self.location_statuses[i].status.is_completed() {
                assert(!self.entries()[i as int].1.completed());
                return false;
            }
            i = i + 1;
        }
        true
    }

    fn discriminant(&self) -> (r: UpdateWeatherStateDiscriminants)
        ensures
            r == (if run_finished(self.model()) {
                UpdateWeatherStateDiscriminants::Finished
            } else {
                UpdateWeatherStateDiscriminants::Active
            }),
    {
        if self.alerts_reviewed && self.all_completed() {
            UpdateWeatherStateDiscriminants::Finished
        } else {
            UpdateWeatherStateDiscriminants::Active
        }
    }

    /// Records `step` for `zone`, and says whether the run is then finished.
    pub fn advance_zone_step(&mut self, zone: &LocationZoneCode, step: UpdateStep) -> (r: UpdateWeatherStateDiscriminants)
        requires
            old(self).wf(),
        ensures
            final(self).wf(),
            lookup(final(self).model().entries, zone@) == match lookup(old(self).model().entries, zone@) {
                Some(s) => Some(s.advanced(step)),
                None => None,
            },
            forall|y: Seq<char>| y != zone@ ==> #[trigger] lookup(final(self).model().entries, y) == lookup(
                old(self).model().entries,
                y,
            ),
            final(self).alerts_reviewed == old(self).alerts_reviewed,
            final(self).model() == advance_model(old(self).model(), zone@, step),
            r == (if run_finished(final(self).model()) {
                UpdateWeatherStateDiscriminants::Finished
            } else {
                UpdateWeatherStateDiscriminants::Active
            }),
    {
        match self.status_for(zone) {
            Some(s) => {
                let st = s.plus_step(step);
                proof {
                    lemma_with_status(self.entries(), zone@, st);
                }
                self.set_status(zone, st);
            },
            None => {},
        }
        self.discriminant()
    }

    /// Marks `zone` failed (a terminal zone keeps its status), and says whether the
    /// run is then finished.
    pub fn update_zone_failure_for(&mut self, zone: &LocationZoneCode) -> (r: UpdateWeatherStateDiscriminants)
        requires
            old(self).wf(),
        ensures
            final(self).wf(),
            lookup(final(self).model().entries, zone@) == match lookup(old(self).model().entries, zone@) {
                Some(s) if !s.completed() => Some(LocationUpdateStatus::Failed),
                other => other,
            },
            forall|y: Seq<char>| y != zone@ ==> #[trigger] lookup(final(self).model().entries, y) == lookup(
                old(self).model().entries,
                y,
            ),
            final(self).alerts_reviewed == old(self).alerts_reviewed,
            final(self).model() == fail_model(old(self).model(), zone@),
            r == (if run_finished(final(self).model()) {
                UpdateWeatherStateDiscriminants::Finished
            } else {
                UpdateWeatherStateDiscriminants::Active
            }),
    {
        proof {
            lemma_with_status(self.entries(), zone@, LocationUpdateStatus::Failed);
        }
        match self.status_for(zone) {
            Some(s) => {
                if !s.is_completed() {
                    self.set_status(zone, LocationUpdateStatus::Failed);
                }
            },
            None => {},
        }
        self.discriminant()
    }

    /// Applies one event of the run, and says whether the run is then finished.
    pub fn mutate(&mut self, event: &WeatherEvent) -> (r: UpdateWeatherStateDiscriminants)
        requires
            old(self).wf(),
        ensures
            final(self).wf(),
            final(self).model() == status_step(old(self).model(), *event),
            r == (if run_finished(final(self).model()) {
                UpdateWeatherStateDiscriminants::Finished
            } else {
                UpdateWeatherStateDiscriminants::Active
            }),
    {
        match event {
            WeatherEvent::ObservationUpdated { zone, .. } => self.advance_zone_step(zone, UpdateStep::Observation),
            WeatherEvent::ForecastUpdated { zone, .. } => self.advance_zone_step(zone, UpdateStep::Forecast),
            WeatherEvent::AlertActivated { zone, .. } => self.advance_zone_step(zone, UpdateStep::Alert),
            WeatherEvent::AlertDeactivated { zone, .. } => self.advance_zone_step(zone, UpdateStep::Alert),
            WeatherEvent::AlertsReviewed { .. } => {
                self.alerts_reviewed = true;
                self.discriminant()
            },
            WeatherEvent::UpdateLocationFailed { zone, .. } => self.update_zone_failure_for(zone),
            WeatherEvent::UpdateStarted { .. } => self.discriminant(),
        }
    }
}

} // verus!
