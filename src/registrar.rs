use vstd::prelude::*;
use vstd::string::StringExecFns;
use crate::events::RegistrarEvent;
use crate::ids::LocationZoneCode;

verus! {

/// A set of zones held as a list without repeats, in the order they were added.
#[derive(Debug)]
pub struct ZoneSet {
    zones: Vec<LocationZoneCode>,
}

/// The monitored set after one registrar event.
pub open spec fn registrar_step(s: Set<Seq<char>>, ev: RegistrarEvent) -> Set<Seq<char>> {
    match ev {
        RegistrarEvent::ForecastZoneAdded { zone } => s.insert(zone@),
        RegistrarEvent::ForecastZoneRemoved { zone } => s.remove(zone@),
        RegistrarEvent::AllForecastZonesRemoved => Set::empty(),
    }
}

/// The monitored set after replaying `evs` from the empty set.
pub open spec fn registrar_replay(evs: Seq<RegistrarEvent>) -> Set<Seq<char>>
    decreases evs.len(),
{
    if evs.len() == 0 {
        Set::empty()
    } else {
        registrar_step(registrar_replay(evs.drop_last()), evs.last())
    }
}

/// The monitored set after replaying `evs` from `start`.
pub open spec fn registrar_replay_from(start: Set<Seq<char>>, evs: Seq<RegistrarEvent>) -> Set<Seq<char>>
    decreases evs.len(),
{
    if evs.len() == 0 {
        start
    } else {
        registrar_step(registrar_replay_from(start, evs.drop_last()), evs.last())
    }
}

/// The zones that a replay of `evs` keeps from its start.
pub open spec fn replay_keeps(evs: Seq<RegistrarEvent>) -> Set<Seq<char>>
    decreases evs.len(),
{
    if evs.len() == 0 {
        Set::full()
    } else {
        let k = replay_keeps(evs.drop_last());
        match evs.last() {
            RegistrarEvent::ForecastZoneAdded { .. } => k,
            RegistrarEvent::ForecastZoneRemoved { zone } => k.remove(zone@),
            RegistrarEvent::AllForecastZonesRemoved => Set::empty(),
        }
    }
}

/// The zones that a replay of `evs` adds whatever its start.
pub open spec fn replay_adds(evs: Seq<RegistrarEvent>) -> Set<Seq<char>>
    decreases evs.len(),
{
    if evs.len() == 0 {
        Set::empty()
    } else {
        let a = replay_adds(evs.drop_last());
        match evs.last() {
            RegistrarEvent::ForecastZoneAdded { zone } => a.insert(zone@),
            RegistrarEvent::ForecastZoneRemoved { zone } => a.remove(zone@),
            RegistrarEvent::AllForecastZonesRemoved => Set::empty(),
        }
    }
}

proof fn lemma_replay_shape(start: Set<Seq<char>>, evs: Seq<RegistrarEvent>)
    ensures
        registrar_replay_from(start, evs) == start.intersect(replay_keeps(evs)).union(replay_adds(evs)),
    decreases evs.len(),
{
    if evs.len() == 0 {
        assert(start.intersect(Set::full()).union(Set::empty()) =~= start);
    } else {
        lemma_replay_shape(start, evs.drop_last());
        let k = replay_keeps(evs.drop_last());
        let a = replay_adds(evs.drop_last());
        match evs.last() {
            RegistrarEvent::ForecastZoneAdded { zone } => {
                assert(start.intersect(k).union(a).insert(zone@) =~= start.intersect(k).union(a.insert(zone@)));
            },
            RegistrarEvent::ForecastZoneRemoved { zone } => {
                assert(start.intersect(k).union(a).remove(zone@) =~= start.intersect(k.remove(zone@)).union(
                    a.remove(zone@),
                ));
            },
            RegistrarEvent::AllForecastZonesRemoved => {
                assert(start.intersect(Set::empty()).union(Set::empty()) =~= Set::<Seq<char>>::empty());
            },
        }
    }
}

/// Replaying a run of registrar events a second time leaves the monitored set as one
/// replay left it.
pub proof fn lemma_registrar_replay_twice(start: Set<Seq<char>>, evs: Seq<RegistrarEvent>)
    ensures
        registrar_replay_from(registrar_replay_from(start, evs), evs) == registrar_replay_from(start, evs),
{
    lemma_replay_shape(start, evs);
    lemma_replay_shape(registrar_replay_from(start, evs), evs);
    let k = replay_keeps(evs);
    let a = replay_adds(evs);
    assert(start.intersect(k).union(a).intersect(k).union(a) =~= start.intersect(k).union(a));
}

impl ZoneSet {
    pub closed spec fn view(&self) -> Set<Seq<char>> {
        Set::new(|z: Seq<char>| exists|i: int| 0 <= i < self.zones@.len() && #[trigger] self.zones@[i]@ == z)
    }

    pub closed spec fn wf(&self) -> bool {
        forall|i: int, j: int|
            0 <= i < self.zones@.len() && 0 <= j < self.zones@.len() && #[trigger] self.zones@[i]@
                == #[trigger] self.zones@[j]@ ==> i == j
    }

    pub fn new() -> (r: Self)
        ensures
            r.wf(),
            r.view() == Set::<Seq<char>>::empty(),
    {
        let r = ZoneSet { zones: Vec::new() };
        assert(r.view() =~= Set::<Seq<char>>::empty());
        r
    }

    fn index_of(&self, zone: &LocationZoneCode) -> (r: Option<usize>)
        ensures
            match r {
                Some(i) => i < self.zones@.len() && self.zones@[i as int]@ == zone@,
                None => !self.view().contains(zone@),
            },
    {
        let mut i: usize = 0;
        while i < self.zones.len()
            invariant
                i <= self.zones.len(),
                forall|j: int| 0 <= j < i ==> (#[trigger] self.zones@[j])@ != zone@,
            decreases self.zones.len() - i,
        {
            if self.zones[i] == *zone {
                return Some(i);
            }
            i = i + 1;
        }
        None
    }

    pub fn contains(&self, zone: &LocationZoneCode) -> (r: bool)
        ensures
            r == self.view().contains(zone@),
    {
        match self.index_of(zone) {
            Some(i) => {
                assert(self.view().contains(zone@)) by {
                    assert(self.zones@[i as int]@ == zone@);
                }
                true
            },
            None => false,
        }
    }

    pub fn is_empty(&self) -> (r: bool)
        ensures
            r == (self.view() == Set::<Seq<char>>::empty()),
    {
        if self.zones.len() == 0 {
            assert(self.view() =~= Set::<Seq<char>>::empty());
            true
        } else {
            assert(self.view().contains(self.zones@[0]@));
            false
        }
    }

    pub fn insert(&mut self, zone: LocationZoneCode)
        requires
            old(self).wf(),
        ensures
            final(self).wf(),
            final(self).view() == old(self).view().insert(zone@),
    {
        let ghost before = self.zones@;
        let ghost zv = zone@;
        if !self.contains(&zone) {
            self.zones.push(zone);
            assert(self.zones@ =~= before.push(self.zones@[before.len() as int]));
            assert forall|z: Seq<char>| #[trigger] self.view().contains(z) == old(self).view().insert(zv).contains(z) by {
                if self.view().contains(z) {
                    let j = choose|j: int| 0 <= j < self.zones@.len() && #[trigger] self.zones@[j]@ == z;
                    if j < before.len() {
                        assert(before[j]@ == z);
                    }
                }
                if old(self).view().contains(z) {
                    let j = choose|j: int| 0 <= j < before.len() && #[trigger] before[j]@ == z;
                    assert(self.zones@[j]@ == z);
                }
                if z == zv {
                    assert(self.zones@[before.len() as int]@ == z);
                }
            }
            assert forall|i: int, j: int|
                0 <= i < self.zones@.len() && 0 <= j < self.zones@.len() && #[trigger] self.zones@[i]@
                    == #[trigger] self.zones@[j]@ implies i == j by {
                if i < before.len() && j < before.len() {
                    assert(before[i]@ == before[j]@);
                } else if i < before.len() {
                    assert(old(self).view().contains(before[i]@));
                } else if j < before.len() {
                    assert(old(self).view().contains(before[j]@));
                }
            }
        }
        assert(self.view() =~= old(self).view().insert(zv));
    }

    pub fn remove(&mut self, zone: &LocationZoneCode)
        requires
            old(self).wf(),
        ensures
            final(self).wf(),
            final(self).view() == old(self).view().remove(zone@),
    {
        match self.index_of(zone) {
            Some(i) => {
                let ghost before = self.zones@;
                self.zones.remove(i);
                assert(self.zones@ =~= before.remove(i as int));
                assert forall|z: Seq<char>| #[trigger] self.view().contains(z) == old(self).view().remove(zone@).contains(z) by {
                    if self.view().contains(z) {
                        let j = choose|j: int| 0 <= j < self.zones@.len() && #[trigger] self.zones@[j]@ == z;
                        if j < i {
                            assert(before[j]@ == z);
                        } else {
                            assert(before[j + 1]@ == z);
                        }
                    }
                    if old(self).view().remove(zone@).contains(z) {
                        let j = choose|j: int| 0 <= j < before.len() && #[trigger] before[j]@ == z;
                        if j < i {
                            assert(self.zones@[j]@ == z);
                        } else if j > i {
                            assert(self.zones@[j - 1]@ == z);
                        }
                    }
                }
                assert(self.view() =~= old(self).view().remove(zone@));
            },
            None => {
                assert(self.view() =~= old(self).view().remove(zone@));
            },
        }
    }

    pub fn clear(&mut self)
        ensures
            final(self).wf(),
            final(self).view() == Set::<Seq<char>>::empty(),
    {
        self.zones.clear();
        assert(self.view() =~= Set::<Seq<char>>::empty());
    }

    /// The zones, each once, in the order they were added.
    pub fn to_vec(&self) -> (r: Vec<LocationZoneCode>)
        requires
            self.wf(),
        ensures
            forall|z: Seq<char>| self.view().contains(z) <==> exists|i: int| 0 <= i < r@.len() && #[trigger] r@[i]@ == z,
            forall|i: int, j: int| 0 <= i < r@.len() && 0 <= j < r@.len() && #[trigger] r@[i]@ == #[trigger] r@[j]@ ==> i == j,
    {
        crate::events::clone_zones(&self.zones)
    }

    /// Applies one registrar event.
    pub fn apply(&mut self, event: &RegistrarEvent)
        requires
            old(self).wf(),
        ensures
            final(self).wf(),
            final(self).view() == registrar_step(old(self).view(), *event),
    {
        match event {
            RegistrarEvent::ForecastZoneAdded { zone } => self.insert(zone.clone()),
            RegistrarEvent::ForecastZoneRemoved { zone } => self.remove(zone),
            RegistrarEvent::AllForecastZonesRemoved => self.clear(),
        }
    }
}

/// The registrar aggregate: the set of monitored zones.
#[derive(Debug)]
pub struct Registrar {
    pub location_codes: ZoneSet,
}

impl Registrar {
    pub open spec fn wf(&self) -> bool {
        self.location_codes.wf()
    }

    pub fn new() -> (r: Self)
        ensures
            r.wf(),
            r.location_codes.view() == Set::<Seq<char>>::empty(),
    {
        Registrar { location_codes: ZoneSet::new() }
    }

    pub fn mutate(&mut self, event: &RegistrarEvent)
        requires
            old(self).wf(),
        ensures
            final(self).wf(),
            final(self).location_codes.view() == registrar_step(old(self).location_codes.view(), *event),
    {
        self.location_codes.apply(event);
    }

    /// The registrar rebuilt from its whole event stream.
    pub fn from_history(history: &Vec<RegistrarEvent>) -> (r: Self)
        ensures
            r.wf(),
            r.location_codes.view() == registrar_replay(history@),
    {
        let mut reg = Registrar::new();
        let mut i: usize = 0;
        while i < history.len()
            invariant
                i <= history.len(),
                reg.wf(),
                reg.location_codes.view() == registrar_replay(history@.take(i as int)),
            decreases history.len() - i,
        {
            assert(history@.take(i + 1).drop_last() =~= history@.take(i as int));
            reg.mutate(&history[i]);
            i = i + 1;
        }
        assert(history@.take(i as int) =~= history@);
        reg
    }
}

/// Why a registrar command was refused.
#[derive(Debug)]
pub enum RegistrarError {
    LocationZoneAlreadyMonitored(LocationZoneCode),
}

/// Starts monitoring a zone.
#[derive(Debug)]
pub struct MonitorForecastZone(pub LocationZoneCode);

impl MonitorForecastZone {
    pub fn new(zone: LocationZoneCode) -> (r: Self)
        ensures
            r.0 == zone,
    {
        MonitorForecastZone(zone)
    }

    /// `ForecastZoneAdded` if the zone is not monitored; `LocationZoneAlreadyMonitored`
    /// if it is.
    pub fn process(&self, state: &Registrar) -> (r: Result<Vec<RegistrarEvent>, RegistrarError>)
        ensures
            state.location_codes.view().contains(self.0@) <==> r is Err,
            r is Ok ==> r->Ok_0@.len() == 1 && match r->Ok_0@[0] {
                RegistrarEvent::ForecastZoneAdded { zone } => zone == self.0,
                _ => false,
            },
            r is Err ==> match r->Err_0 {
                RegistrarError::LocationZoneAlreadyMonitored(z) => z == self.0,
            },
    {
        if state.location_codes.contains(&self.0) {
            return Err(RegistrarError::LocationZoneAlreadyMonitored(self.0.clone()));
        }
        Ok(vec![RegistrarEvent::ForecastZoneAdded { zone: self.0.clone() }])
    }
}

/// Stops monitoring a zone.
#[derive(Debug)]
pub struct IgnoreForecastZone(pub LocationZoneCode);

impl IgnoreForecastZone {
    pub fn new(zone: LocationZoneCode) -> (r: Self)
        ensures
            r.0 == zone,
    {
        IgnoreForecastZone(zone)
    }

    /// `ForecastZoneRemoved` if the zone is monitored; no event otherwise.
    pub fn process(&self, state: &Registrar) -> (r: Result<Vec<RegistrarEvent>, RegistrarError>)
        ensures
            r is Ok,
            state.location_codes.view().contains(self.0@) ==> r->Ok_0@.len() == 1 && match r->Ok_0@[0] {
                RegistrarEvent::ForecastZoneRemoved { zone } => zone == self.0,
                _ => false,
            },
            !state.location_codes.view().contains(self.0@) ==> r->Ok_0@.len() == 0,
    {
        if state.location_codes.contains(&self.0) {
            Ok(vec![RegistrarEvent::ForecastZoneRemoved { zone: self.0.clone() }])
        } else {
            Ok(Vec::new())
        }
    }
}

/// Stops monitoring every zone.
#[derive(Debug, Clone, Copy, PartialEq, Eq, Structural)]
pub struct ClearZoneMonitoring;

impl ClearZoneMonitoring {
    /// `AllForecastZonesRemoved` if some zone is monitored; no event otherwise.
    pub fn process(&self, state: &Registrar) -> (r: Result<Vec<RegistrarEvent>, RegistrarError>)
        ensures
            r is Ok,
            state.location_codes.view() != Set::<Seq<char>>::empty() ==> r->Ok_0@.len() == 1
                && r->Ok_0@[0] is AllForecastZonesRemoved,
            state.location_codes.view() == Set::<Seq<char>>::empty() ==> r->Ok_0@.len() == 0,
    {
        if !state.location_codes.is_empty() {
            Ok(vec![RegistrarEvent::AllForecastZonesRemoved])
        } else {
            Ok(Vec::new())
        }
    }
}

/// The in-memory read model of the monitored zones, fed by the registrar stream.
#[derive(Debug)]
pub struct MonitoredLocationZones {
    zones: ZoneSet,
}

impl MonitoredLocationZones {
    pub closed spec fn view(&self) -> Set<Seq<char>> {
        self.zones.view()
    }

    pub closed spec fn wf(&self) -> bool {
        self.zones.wf()
    }

    pub fn new() -> (r: Self)
        ensures
            r.wf(),
            r.view() == Set::<Seq<char>>::empty(),
    {
        MonitoredLocationZones { zones: ZoneSet::new() }
    }

    /// Applies one registrar event to the view.
    pub fn handle(&mut self, event: &RegistrarEvent)
        requires
            old(self).wf(),
        ensures
            final(self).wf(),
            final(self).view() == registrar_step(old(self).view(), *event),
    {
        self.zones.apply(event);
    }

    /// The monitored zones, each once.
    pub fn monitored(&self) -> (r: Vec<LocationZoneCode>)
        requires
            self.wf(),
        ensures
            forall|z: Seq<char>| self.view().contains(z) <==> exists|i: int| 0 <= i < r@.len() && #[trigger] r@[i]@ == z,
            forall|i: int, j: int| 0 <= i < r@.len() && 0 <= j < r@.len() && #[trigger] r@[i]@ == #[trigger] r@[j]@ ==> i == j,
    {
        self.zones.to_vec()
    }
}

/// The identifier of the registrar's single stream.
#[derive(Debug, Clone, Copy, PartialEq, Eq, Structural)]
pub struct SingletonIdGenerator;

impl SingletonIdGenerator {
    pub fn next_id_rep() -> (r: String)
        ensures
            r@ == "<singleton>"@,
    {
        String::from_str("<singleton>")
    }
}

} // verus!
