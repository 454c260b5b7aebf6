use vstd::prelude::*;
use std::sync::Arc;
use crate::events::{WeatherEvent, clone_zones, share, zone_codes};
use crate::frame::WeatherFrame;
use crate::ids::{LocationZoneCode, UpdateWeatherId};
use crate::table::Table;
use crate::update_state::{
    StatusModel, UpdateWeatherStateDiscriminants, WeatherUpdateStatus, initial_entries, run_finished,
    status_step,
};
use crate::weather_data::{WeatherAlert, ZoneForecast};

verus! {

/// One delivery to a projection: sequence number, event, and when it was handled.
pub type Delivery<E> = (u64, E);

/// A projection state: its rows and the sequence number of the last event applied.
/// An event at or below the checkpoint was applied already and is skipped.
pub open spec fn checkpoint_step<R, E>(f: spec_fn(R, E) -> R, p: (R, u64), d: Delivery<E>) -> (R, u64) {
    if d.0 <= p.1 {
        p
    } else {
        (f(p.0, d.1), d.0)
    }
}

pub open spec fn checkpoint_replay<R, E>(f: spec_fn(R, E) -> R, p: (R, u64), ds: Seq<Delivery<E>>) -> (R, u64)
    decreases ds.len(),
{
    if ds.len() == 0 {
        p
    } else {
        checkpoint_step(f, checkpoint_replay(f, p, ds.drop_last()), ds.last())
    }
}

proof fn lemma_checkpoint_grows<R, E>(f: spec_fn(R, E) -> R, p: (R, u64), ds: Seq<Delivery<E>>)
    ensures
        checkpoint_replay(f, p, ds).1 >= p.1,
        forall|i: int| 0 <= i < ds.len() ==> (#[trigger] ds[i]).0 <= checkpoint_replay(f, p, ds).1,
    decreases ds.len(),
{
    if ds.len() > 0 {
        lemma_checkpoint_grows(f, p, ds.drop_last());
        assert forall|i: int| 0 <= i < ds.len() implies (#[trigger] ds[i]).0 <= checkpoint_replay(f, p, ds).1 by {
            if i < ds.len() - 1 {
                assert(ds.drop_last()[i] == ds[i]);
            }
        }
    }
}

proof fn lemma_replay_below_checkpoint<R, E>(f: spec_fn(R, E) -> R, p: (R, u64), ds: Seq<Delivery<E>>)
    requires
        forall|i: int| 0 <= i < ds.len() ==> (#[trigger] ds[i]).0 <= p.1,
    ensures
        checkpoint_replay(f, p, ds) == p,
    decreases ds.len(),
{
    if ds.len() > 0 {
        assert forall|i: int| 0 <= i < ds.drop_last().len() implies (#[trigger] ds.drop_last()[i]).0 <= p.1 by {
            assert(ds.drop_last()[i] == ds[i]);
        }
        lemma_replay_below_checkpoint(f, p, ds.drop_last());
    }
}

/// Projection idempotence: replaying a run of deliveries a second time (the same
/// sequence numbers, whatever they carry) leaves the projection as one replay left it.
pub proof fn lemma_replay_twice<R, E>(
    f: spec_fn(R, E) -> R,
    p: (R, u64),
    ds: Seq<Delivery<E>>,
    again: Seq<Delivery<E>>,
)
    requires
        again.len() == ds.len(),
        forall|i: int| 0 <= i < ds.len() ==> (#[trigger] again[i]).0 == ds[i].0,
    ensures
        checkpoint_replay(f, checkpoint_replay(f, p, ds), again) == checkpoint_replay(f, p, ds),
{
    lemma_checkpoint_grows(f, p, ds);
    let q = checkpoint_replay(f, p, ds);
    assert forall|i: int| 0 <= i < again.len() implies (#[trigger] again[i]).0 <= q.1 by {
        assert(ds[i].0 <= q.1);
    }
    lemma_replay_below_checkpoint(f, q, again);
}

/// The latest weather of one zone.
#[derive(Debug)]
pub struct ZoneWeather {
    pub zone: LocationZoneCode,
    pub current: Option<Arc<WeatherFrame>>,
    pub forecast: Option<Arc<ZoneForecast>>,
    pub alert: Option<Arc<WeatherAlert>>,
    pub last_updated_at: i64,
}

/// The zone weather table after one zone event handled at time `at`: the event's
/// column of the zone's row is set, the row's other columns kept (or empty for a
/// new row).
pub open spec fn zone_weather_step(rows: Map<Seq<char>, ZoneWeather>, d: (WeatherEvent, i64)) -> Map<
    Seq<char>,
    ZoneWeather,
> {
    let (ev, at) = d;
    match ev {
        WeatherEvent::ObservationUpdated { zone, weather, .. } => rows.insert(
            zone@,
            ZoneWeather {
                zone,
                current: Some(weather),
                forecast: if rows.contains_key(zone@) { rows[zone@].forecast } else { None },
                alert: if rows.contains_key(zone@) { rows[zone@].alert } else { None },
                last_updated_at: at,
            },
        ),
        WeatherEvent::ForecastUpdated { zone, forecast, .. } => rows.insert(
            zone@,
            ZoneWeather {
                zone,
                current: if rows.contains_key(zone@) { rows[zone@].current } else { None },
                forecast: Some(forecast),
                alert: if rows.contains_key(zone@) { rows[zone@].alert } else { None },
                last_updated_at: at,
            },
        ),
        WeatherEvent::AlertActivated { zone, alert, .. } => rows.insert(
            zone@,
            ZoneWeather {
                zone,
                current: if rows.contains_key(zone@) { rows[zone@].current } else { None },
                forecast: if rows.contains_key(zone@) { rows[zone@].forecast } else { None },
                alert: Some(alert),
                last_updated_at: at,
            },
        ),
        WeatherEvent::AlertDeactivated { zone, .. } => rows.insert(
            zone@,
            ZoneWeather {
                zone,
                current: if rows.contains_key(zone@) { rows[zone@].current } else { None },
                forecast: if rows.contains_key(zone@) { rows[zone@].forecast } else { None },
                alert: None,
                last_updated_at: at,
            },
        ),
        _ => rows,
    }
}

/// The zone weather table's step, as a function value.
pub open spec fn zone_weather_fn() -> spec_fn(Map<Seq<char>, ZoneWeather>, (WeatherEvent, i64)) -> Map<Seq<char>, ZoneWeather> {
    |rows: Map<Seq<char>, ZoneWeather>, d: (WeatherEvent, i64)| zone_weather_step(rows, d)
}

/// Replaying a run of deliveries into the zone weather projection a second time leaves
/// it as one replay left it.
pub proof fn lemma_zone_weather_replay_twice(
    p: (Map<Seq<char>, ZoneWeather>, u64),
    ds: Seq<Delivery<(WeatherEvent, i64)>>,
    again: Seq<Delivery<(WeatherEvent, i64)>>,
)
    requires
        again.len() == ds.len(),
        forall|i: int| 0 <= i < ds.len() ==> (#[trigger] again[i]).0 == ds[i].0,
    ensures
        checkpoint_replay(zone_weather_fn(), checkpoint_replay(zone_weather_fn(), p, ds), again)
            == checkpoint_replay(zone_weather_fn(), p, ds),
{
    lemma_replay_twice(zone_weather_fn(), p, ds, again);
}

/// The `zone_weather` read model: one row per zone.
#[derive(Debug)]
pub struct ZoneWeatherProjection {
    rows: Table<ZoneWeather>,
    checkpoint: u64,
}

impl ZoneWeatherProjection {
    pub closed spec fn wf(&self) -> bool {
        self.rows.wf()
    }

    pub closed spec fn model(&self) -> (Map<Seq<char>, ZoneWeather>, u64) {
        (self.rows.view(), self.checkpoint)
    }

    pub fn new() -> (r: Self)
        ensures
            r.wf(),
            r.model() == (Map::<Seq<char>, ZoneWeather>::empty(), 0u64),
    {
        ZoneWeatherProjection { rows: Table::new(), checkpoint: 0 }
    }

    /// The checkpoint: the sequence number of the last event applied.
    pub fn checkpoint(&self) -> (r: u64)
        ensures
            r == self.model().1,
    {
        self.checkpoint
    }

    /// The row of `zone`, if any.
    pub fn weather_by_zone(&self, zone: &LocationZoneCode) -> (r: Option<&ZoneWeather>)
        requires
            self.wf(),
        ensures
            match r {
                Some(row) => self.model().0.contains_key(zone@) && *row == self.model().0[zone@],
                None => !self.model().0.contains_key(zone@),
            },
    {
        self.rows.get(&zone.code)
    }

    /// Handles the event with sequence number `sequence`, at time `at`.
    pub fn handle(&mut self, sequence: u64, event: &WeatherEvent, at: i64)
        requires
            old(self).wf(),
        ensures
            final(self).wf(),
            final(self).model() == checkpoint_step(
                zone_weather_fn(),
                old(self).model(),
                (sequence, (*event, at)),
            ),
    {
        if sequence <= self.checkpoint {
            return;
        }
        let (zone, current, forecast, alert) = match event {
            WeatherEvent::ObservationUpdated { zone, weather, .. } => {
                let prev = self.rows.get(&zone.code);
                let (f, a) = match prev {
                    Some(row) => (share_opt(&row.forecast), share_opt(&row.alert)),
                    None => (None, None),
                };
                (zone, Some(share(weather)), f, a)
            },
            WeatherEvent::ForecastUpdated { zone, forecast, .. } => {
                let prev = self.rows.get(&zone.code);
                let (c, a) = match prev {
                    Some(row) => (share_opt(&row.current), share_opt(&row.alert)),
                    None => (None, None),
                };
                (zone, c, Some(share(forecast)), a)
            },
            WeatherEvent::AlertActivated { zone, alert, .. } => {
                let prev = self.rows.get(&zone.code);
                let (c, f) = match prev {
                    Some(row) => (share_opt(&row.current), share_opt(&row.forecast)),
                    None => (None, None),
                };
                (zone, c, f, Some(share(alert)))
            },
            WeatherEvent::AlertDeactivated { zone, .. } => {
                let prev = self.rows.get(&zone.code);
                let (c, f) = match prev {
                    Some(row) => (share_opt(&row.current), share_opt(&row.forecast)),
                    None => (None, None),
                };
                (zone, c, f, None)
            },
            _ => {
                self.checkpoint = sequence;
                return;
            },
        };
        let row = ZoneWeather { zone: zone.clone(), current, forecast, alert, last_updated_at: at };
        self.rows.upsert(zone.code.clone(), row);
        self.checkpoint = sequence;
    }
}

fn share_opt<T>(value: &Option<Arc<T>>) -> (r: Option<Arc<T>>)
    ensures
        r == *value,
{
    match value {
        Some(v) => Some(share(v)),
        None => None,
    }
}

/// What the history table holds of one run.
pub struct HistoryRow {
    pub state: UpdateWeatherStateDiscriminants,
    pub statuses: StatusModel,
    pub last_updated_at: i64,
}

/// A row whose statuses are `m`: finished iff the run is, otherwise active.
pub open spec fn history_row(m: StatusModel, at: i64) -> HistoryRow {
    HistoryRow {
        state: if run_finished(m) {
            UpdateWeatherStateDiscriminants::Finished
        } else {
            UpdateWeatherStateDiscriminants::Active
        },
        statuses: m,
        last_updated_at: at,
    }
}

/// The history table after one saga event handled at time `at`: `UpdateStarted`
/// (re)creates the run's row; any other event applies the same status transition
/// the aggregate uses to the run's row, starting one from the event's zones if the
/// run has none.
pub open spec fn history_step(rows: Map<Seq<char>, HistoryRow>, d: (WeatherEvent, i64)) -> Map<
    Seq<char>,
    HistoryRow,
> {
    let (ev, at) = d;
    let id = ev.spec_update_id();
    match ev {
        WeatherEvent::UpdateStarted { zones, .. } => rows.insert(
            id,
            HistoryRow {
                state: UpdateWeatherStateDiscriminants::Active,
                statuses: StatusModel { entries: initial_entries(zone_codes(zones@)), alerts_reviewed: false },
                last_updated_at: at,
            },
        ),
        _ => {
            let base = if rows.contains_key(id) {
                rows[id].statuses
            } else {
                StatusModel { entries: initial_entries(ev.spec_zones()), alerts_reviewed: false }
            };
            rows.insert(id, history_row(status_step(base, ev), at))
        },
    }
}

/// The history table's step, as a function value.
pub open spec fn history_fn() -> spec_fn(Map<Seq<char>, HistoryRow>, (WeatherEvent, i64)) -> Map<Seq<char>, HistoryRow> {
    |rows: Map<Seq<char>, HistoryRow>, d: (WeatherEvent, i64)| history_step(rows, d)
}

/// Replaying a run of deliveries into the history projection a second time leaves it
/// as one replay left it.
pub proof fn lemma_history_replay_twice(
    p: (Map<Seq<char>, HistoryRow>, u64),
    ds: Seq<Delivery<(WeatherEvent, i64)>>,
    again: Seq<Delivery<(WeatherEvent, i64)>>,
)
    requires
        again.len() == ds.len(),
        forall|i: int| 0 <= i < ds.len() ==> (#[trigger] again[i]).0 == ds[i].0,
    ensures
        checkpoint_replay(history_fn(), checkpoint_replay(history_fn(), p, ds), again)
            == checkpoint_replay(history_fn(), p, ds),
{
    lemma_replay_twice(history_fn(), p, ds, again);
}

/// One run's row of the `update_weather_history` read model.
#[derive(Debug)]
pub struct UpdateWeatherStatusView {
    pub update_id: UpdateWeatherId,
    pub state: UpdateWeatherStateDiscriminants,
    pub update_statuses: WeatherUpdateStatus,
    pub last_updated_at: i64,
}

impl UpdateWeatherStatusView {
    pub open spec fn model(&self) -> HistoryRow {
        HistoryRow { state: self.state, statuses: self.update_statuses.model(), last_updated_at: self.last_updated_at }
    }
}

/// The `update_weather_history` read model: one row per run.
#[derive(Debug)]
pub struct UpdateWeatherHistoryProjection {
    rows: Table<UpdateWeatherStatusView>,
    checkpoint: u64,
}

impl UpdateWeatherHistoryProjection {
    pub closed spec fn wf(&self) -> bool {
        &&& self.rows.wf()
        &&& forall|k: Seq<char>| #[trigger] self.rows.view().contains_key(k) ==> self.rows.view()[k].update_statuses.wf()
    }

    pub closed spec fn model(&self) -> (Map<Seq<char>, HistoryRow>, u64) {
        (
            Map::new(|k: Seq<char>| self.rows.view().contains_key(k), |k: Seq<char>| self.rows.view()[k].model()),
            self.checkpoint,
        )
    }

    pub fn new() -> (r: Self)
        ensures
            r.wf(),
            r.model() == (Map::<Seq<char>, HistoryRow>::empty(), 0u64),
    {
        let r = UpdateWeatherHistoryProjection { rows: Table::new(), checkpoint: 0 };
        assert(r.model().0 =~= Map::<Seq<char>, HistoryRow>::empty());
        r
    }

    pub fn checkpoint(&self) -> (r: u64)
        ensures
            r == self.model().1,
    {
        self.checkpoint
    }

    /// The row of run `update_id`, if any.
    pub fn fetch_update_status(&self, update_id: &UpdateWeatherId) -> (r: Option<&UpdateWeatherStatusView>)
        requires
            self.wf(),
        ensures
            match r {
                Some(row) => self.model().0.contains_key(update_id@) && row.model() == self.model().0[update_id@],
                None => !self.model().0.contains_key(update_id@),
            },
    {
        self.rows.get(&update_id.id)
    }

    /// Handles the event with sequence number `sequence`, at time `at`.
    pub fn handle(&mut self, sequence: u64, event: &WeatherEvent, at: i64)
        requires
            old(self).wf(),
        ensures
            final(self).wf(),
            final(self).model() == checkpoint_step(
                history_fn(),
                old(self).model(),
                (sequence, (*event, at)),
            ),
    {
        if sequence <= self.checkpoint {
            return;
        }
        let ghost before = self.model().0;
        let id = event.update_id().clone();
        let key = id.id.clone();
        let previous = self.rows.take(&key);
        let row = match event {
            WeatherEvent::UpdateStarted { zones, .. } => UpdateWeatherStatusView {
                update_id: id,
                state: UpdateWeatherStateDiscriminants::Active,
                update_statuses: WeatherUpdateStatus::new(clone_zones(zones)),
                last_updated_at: at,
            },
            _ => {
                let mut statuses = match previous {
                    Some(row) => row.update_statuses,
                    None => WeatherUpdateStatus::new(event.zones()),
                };
                let state = statuses.mutate(event);
                UpdateWeatherStatusView { update_id: id, state, update_statuses: statuses, last_updated_at: at }
            },
        };
        self.rows.upsert(key, row);
        self.checkpoint = sequence;
        assert forall|k: Seq<char>| #[trigger] self.rows.view().contains_key(k) implies self.rows.view()[k].update_statuses.wf() by {
            if k != key@ {
                assert(old(self).rows.view().contains_key(k));
            }
        }
        assert(self.model().0 =~= history_step(before, (*event, at)));
    }
}

} // verus!
