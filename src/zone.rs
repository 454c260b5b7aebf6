use vstd::prelude::*;
use std::sync::Arc;
use crate::events::{WeatherEvent, share};
use crate::frame::WeatherFrame;
use crate::ids::{LocationZoneCode, UpdateWeatherId};
use crate::weather_data::{WeatherAlert, ZoneForecast};

verus! {

/// Why a zone command or a zone fetch failed.
#[derive(Debug)]
pub enum LocationZoneError {
    /// The weather provider failed (its message).
    Provider(String),
    /// A zone command could not be decided or appended (its message).
    Decision(String),
}

/// Whether `ev` belongs to zone `z`'s slices.
pub open spec fn of_zone(ev: WeatherEvent, z: Seq<char>) -> bool {
    match ev {
        WeatherEvent::ObservationUpdated { zone, .. } => zone@ == z,
        WeatherEvent::ForecastUpdated { zone, .. } => zone@ == z,
        WeatherEvent::AlertActivated { zone, .. } => zone@ == z,
        WeatherEvent::AlertDeactivated { zone, .. } => zone@ == z,
        _ => false,
    }
}

/// The alert slice after one event: activation sets the alert, deactivation clears it.
pub open spec fn alert_step(a: Option<Arc<WeatherAlert>>, ev: WeatherEvent) -> Option<Arc<WeatherAlert>> {
    match ev {
        WeatherEvent::AlertActivated { alert, .. } => Some(alert),
        WeatherEvent::AlertDeactivated { .. } => None,
        _ => a,
    }
}

/// The latest observation of a zone.
#[derive(Debug)]
pub struct LocationZoneWeather {
    pub zone: LocationZoneCode,
    pub weather: Option<Arc<WeatherFrame>>,
}

impl LocationZoneWeather {
    pub fn new(zone: LocationZoneCode) -> (r: Self)
        ensures
            r.zone == zone,
            r.weather is None,
    {
        LocationZoneWeather { zone, weather: None }
    }

    pub fn mutate(&mut self, event: &WeatherEvent)
        ensures
            final(self).zone == old(self).zone,
            final(self).weather == (match *event {
                WeatherEvent::ObservationUpdated { weather, .. } => Some(weather),
                _ => old(self).weather,
            }),
    {
        if let WeatherEvent::ObservationUpdated { weather, .. } = event {
            self.weather = Some(share(weather));
        }
    }
}

/// The latest forecast of a zone.
#[derive(Debug)]
pub struct LocationZoneForecast {
    pub zone: LocationZoneCode,
    pub forecast: Option<Arc<ZoneForecast>>,
}

impl LocationZoneForecast {
    pub fn new(zone: LocationZoneCode) -> (r: Self)
        ensures
            r.zone == zone,
            r.forecast is None,
    {
        LocationZoneForecast { zone, forecast: None }
    }

    pub fn mutate(&mut self, event: &WeatherEvent)
        ensures
            final(self).zone == old(self).zone,
            final(self).forecast == (match *event {
                WeatherEvent::ForecastUpdated { forecast, .. } => Some(forecast),
                _ => old(self).forecast,
            }),
    {
        if let WeatherEvent::ForecastUpdated { forecast, .. } = event {
            self.forecast = Some(share(forecast));
        }
    }
}

/// The active alert of a zone, if any.
#[derive(Debug)]
pub struct LocationZoneAlert {
    pub zone: LocationZoneCode,
    pub alert: Option<Arc<WeatherAlert>>,
}

/// The alert slice of zone `z` after replaying that zone's events of `h` from none.
pub open spec fn alert_replay(h: Seq<WeatherEvent>, z: Seq<char>) -> Option<Arc<WeatherAlert>>
    decreases h.len(),
{
    if h.len() == 0 {
        None
    } else {
        let a = alert_replay(h.drop_last(), z);
        if of_zone(h.last(), z) {
            alert_step(a, h.last())
        } else {
            a
        }
    }
}

impl LocationZoneAlert {
    pub fn new(zone: LocationZoneCode) -> (r: Self)
        ensures
            r.zone == zone,
            r.alert is None,
    {
        LocationZoneAlert { zone, alert: None }
    }

    pub fn active_alert(&self) -> (r: bool)
        ensures
            r == self.alert is Some,
    {
        self.alert.is_some()
    }

    pub fn mutate(&mut self, event: &WeatherEvent)
        ensures
            final(self).zone == old(self).zone,
            final(self).alert == alert_step(old(self).alert, *event),
    {
        match event {
            WeatherEvent::AlertActivated { alert, .. } => {
                self.alert = Some(share(alert));
            },
            WeatherEvent::AlertDeactivated { .. } => {
                self.alert = None;
            },
            _ => {},
        }
    }

    /// The alert slice of `zone` rebuilt from the log.
    pub fn from_history(zone: LocationZoneCode, history: &Vec<WeatherEvent>) -> (r: Self)
        ensures
            r.zone == zone,
            r.alert == alert_replay(history@, zone@),
    {
        let mut slice = LocationZoneAlert::new(zone);
        let mut i: usize = 0;
        while i < history.len()
            invariant
                i <= history.len(),
                slice.zone == zone,
                slice.alert == alert_replay(history@.take(i as int), zone@),
            decreases history.len() - i,
        {
            assert(history@.take(i + 1).drop_last() =~= history@.take(i as int));
            let ev = &history[i];
            let mine = match ev {
                WeatherEvent::AlertActivated { zone: z, .. } => *z == slice.zone,
                WeatherEvent::AlertDeactivated { zone: z, .. } => *z == slice.zone,
                WeatherEvent::ObservationUpdated { zone: z, .. } => *z == slice.zone,
                WeatherEvent::ForecastUpdated { zone: z, .. } => *z == slice.zone,
                _ => false,
            };
            if mine {
                slice.mutate(ev);
            }
            i = i + 1;
        }
        assert(history@.take(i as int) =~= history@);
        slice
    }
}

/// Records a zone's observation in a run.
#[derive(Debug)]
pub struct NoteObservation {
    pub zone: LocationZoneCode,
    pub update_id: UpdateWeatherId,
    pub weather: Arc<WeatherFrame>,
}

impl NoteObservation {
    pub fn new(zone: LocationZoneCode, update_id: UpdateWeatherId, weather: WeatherFrame) -> (r: Self)
        ensures
            r.zone == zone,
            r.update_id == update_id,
            *r.weather == weather,
    {
        NoteObservation { zone, update_id, weather: Arc::new(weather) }
    }

    /// Always one `ObservationUpdated` carrying this command's fields.
    pub fn process(&self, _state: &LocationZoneWeather) -> (r: Result<Vec<WeatherEvent>, LocationZoneError>)
        ensures
            r is Ok && r->Ok_0@.len() == 1 && match r->Ok_0@[0] {
                WeatherEvent::ObservationUpdated { zone, update_id, weather } =>
                    zone == self.zone && update_id == self.update_id && weather == self.weather,
                _ => false,
            },
    {
        Ok(vec![WeatherEvent::ObservationUpdated {
            zone: self.zone.clone(),
            update_id: self.update_id.clone(),
            weather: share(&self.weather),
        }])
    }
}

/// Records a zone's forecast in a run.
#[derive(Debug)]
pub struct NoteForecast {
    pub zone: LocationZoneCode,
    pub update_id: UpdateWeatherId,
    pub forecast: Arc<ZoneForecast>,
}

impl NoteForecast {
    pub fn new(zone: LocationZoneCode, update_id: UpdateWeatherId, forecast: ZoneForecast) -> (r: Self)
        ensures
            r.zone == zone,
            r.update_id == update_id,
            *r.forecast == forecast,
    {
        NoteForecast { zone, update_id, forecast: Arc::new(forecast) }
    }

    /// Always one `ForecastUpdated` carrying this command's fields.
    pub fn process(&self, _state: &LocationZoneForecast) -> (r: Result<Vec<WeatherEvent>, LocationZoneError>)
        ensures
            r is Ok && r->Ok_0@.len() == 1 && match r->Ok_0@[0] {
                WeatherEvent::ForecastUpdated { zone, update_id, forecast } =>
                    zone == self.zone && update_id == self.update_id && forecast == self.forecast,
                _ => false,
            },
    {
        Ok(vec![WeatherEvent::ForecastUpdated {
            zone: self.zone.clone(),
            update_id: self.update_id.clone(),
            forecast: share(&self.forecast),
        }])
    }
}

/// Records a zone's current alert (or that it has none) in a run.
#[derive(Debug)]
pub struct NoteAlert {
    pub zone: LocationZoneCode,
    pub update_id: UpdateWeatherId,
    pub alert: Option<Arc<WeatherAlert>>,
}

impl NoteAlert {
    pub fn new(zone: LocationZoneCode, update_id: UpdateWeatherId, alert: Option<WeatherAlert>) -> (r: Self)
        ensures
            r.zone == zone,
            r.update_id == update_id,
            r.alert is Some <==> alert is Some,
            alert is Some ==> *r.alert->Some_0 == alert->Some_0,
    {
        let alert = match alert {
            Some(a) => Some(Arc::new(a)),
            None => None,
        };
        NoteAlert { zone, update_id, alert }
    }

    /// `AlertActivated` when the zone has no active alert and one is given;
    /// `AlertDeactivated` when it has one and none is given; otherwise no event.
    pub fn process(&self, state: &LocationZoneAlert) -> (r: Result<Vec<WeatherEvent>, LocationZoneError>)
        ensures
            r is Ok,
            (state.alert is None && self.alert is Some) ==> r->Ok_0@.len() == 1 && match r->Ok_0@[0] {
                WeatherEvent::AlertActivated { zone, update_id, alert } =>
                    zone == self.zone && update_id == self.update_id && alert == self.alert->Some_0,
                _ => false,
            },
            (state.alert is Some && self.alert is None) ==> r->Ok_0@.len() == 1 && match r->Ok_0@[0] {
                WeatherEvent::AlertDeactivated { zone, update_id } =>
                    zone == self.zone && update_id == self.update_id,
                _ => false,
            },
            (state.alert is Some) == (self.alert is Some) ==> r->Ok_0@.len() == 0,
    {
        match (state.active_alert(), &self.alert) {
            (false, Some(alert)) => Ok(vec![WeatherEvent::AlertActivated {
                zone: self.zone.clone(),
                update_id: self.update_id.clone(),
                alert: share(alert),
            }]),
            (true, None) => Ok(vec![WeatherEvent::AlertDeactivated {
                zone: self.zone.clone(),
                update_id: self.update_id.clone(),
            }]),
            _ => Ok(Vec::new()),
        }
    }
}

} // verus!
