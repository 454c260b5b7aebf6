use vstd::prelude::*;
use std::sync::Arc;
use crate::ids::{LocationZoneCode, UpdateWeatherId};
use crate::frame::WeatherFrame;
use crate::weather_data::{WeatherAlert, ZoneForecast};

verus! {

/// Events of the registrar: the set of monitored zones.
#[derive(Debug, PartialEq, Eq)]
pub enum RegistrarEvent {
    ForecastZoneAdded { zone: LocationZoneCode },
    ForecastZoneRemoved { zone: LocationZoneCode },
    AllForecastZonesRemoved,
}

/// Events of the zones and of the "update weather" saga, which share one stream.
#[derive(Debug)]
pub enum WeatherEvent {
    ObservationUpdated { zone: LocationZoneCode, update_id: UpdateWeatherId, weather: Arc<WeatherFrame> },
    ForecastUpdated { zone: LocationZoneCode, update_id: UpdateWeatherId, forecast: Arc<ZoneForecast> },
    AlertActivated { zone: LocationZoneCode, update_id: UpdateWeatherId, alert: Arc<WeatherAlert> },
    AlertDeactivated { zone: LocationZoneCode, update_id: UpdateWeatherId },
    UpdateStarted { update_id: UpdateWeatherId, zones: Vec<LocationZoneCode> },
    AlertsReviewed { update_id: UpdateWeatherId },
    UpdateLocationFailed { update_id: UpdateWeatherId, zone: LocationZoneCode, cause: String },
}

/// The codes of a list of zones.
pub open spec fn zone_codes(zones: Seq<LocationZoneCode>) -> Seq<Seq<char>> {
    zones.map_values(|z: LocationZoneCode| z@)
}

impl WeatherEvent {
    /// The saga run the event belongs to.
    pub open spec fn spec_update_id(&self) -> Seq<char> {
        match self {
            WeatherEvent::ObservationUpdated { update_id, .. } => update_id@,
            WeatherEvent::ForecastUpdated { update_id, .. } => update_id@,
            WeatherEvent::AlertActivated { update_id, .. } => update_id@,
            WeatherEvent::AlertDeactivated { update_id, .. } => update_id@,
            WeatherEvent::UpdateStarted { update_id, .. } => update_id@,
            WeatherEvent::AlertsReviewed { update_id } => update_id@,
            WeatherEvent::UpdateLocationFailed { update_id, .. } => update_id@,
        }
    }

    /// The zones the event names.
    pub open spec fn spec_zones(&self) -> Seq<Seq<char>> {
        match self {
            WeatherEvent::ObservationUpdated { zone, .. } => seq![zone@],
            WeatherEvent::ForecastUpdated { zone, .. } => seq![zone@],
            WeatherEvent::AlertActivated { zone, .. } => seq![zone@],
            WeatherEvent::AlertDeactivated { zone, .. } => seq![zone@],
            WeatherEvent::UpdateStarted { zones, .. } => zone_codes(zones@),
            WeatherEvent::AlertsReviewed { .. } => seq![],
            WeatherEvent::UpdateLocationFailed { zone, .. } => seq![zone@],
        }
    }

    pub fn update_id(&self) -> (r: &UpdateWeatherId)
        ensures
            r@ == self.spec_update_id(),
    {
        match self {
            WeatherEvent::ObservationUpdated { update_id, .. } => update_id,
            WeatherEvent::ForecastUpdated { update_id, .. } => update_id,
            WeatherEvent::AlertActivated { update_id, .. } => update_id,
            WeatherEvent::AlertDeactivated { update_id, .. } => update_id,
            WeatherEvent::UpdateStarted { update_id, .. } => update_id,
            WeatherEvent::AlertsReviewed { update_id } => update_id,
            WeatherEvent::UpdateLocationFailed { update_id, .. } => update_id,
        }
    }

    pub fn zones(&self) -> (r: Vec<LocationZoneCode>)
        ensures
            zone_codes(r@) == self.spec_zones(),
    {
        match self {
            WeatherEvent::ObservationUpdated { zone, .. } => {
                let r = vec![zone.clone()];
                assert(zone_codes(r@) =~= self.spec_zones());
                r
            },
            WeatherEvent::ForecastUpdated { zone, .. } => {
                let r = vec![zone.clone()];
                assert(zone_codes(r@) =~= self.spec_zones());
                r
            },
            WeatherEvent::AlertActivated { zone, .. } => {
                let r = vec![zone.clone()];
                assert(zone_codes(r@) =~= self.spec_zones());
                r
            },
            WeatherEvent::AlertDeactivated { zone, .. } => {
                let r = vec![zone.clone()];
                assert(zone_codes(r@) =~= self.spec_zones());
                r
            },
            WeatherEvent::UpdateStarted { zones, .. } => clone_zones(zones),
            WeatherEvent::AlertsReviewed { .. } => {
                let r: Vec<LocationZoneCode> = Vec::new();
                assert(zone_codes(r@) =~= self.spec_zones());
                r
            },
            WeatherEvent::UpdateLocationFailed { zone, .. } => {
                let r = vec![zone.clone()];
                assert(zone_codes(r@) =~= self.spec_zones());
                r
            },
        }
    }
}

/// A copy of a list of zones.
pub fn clone_zones(zones: &Vec<LocationZoneCode>) -> (r: Vec<LocationZoneCode>)
    ensures
        r@ == zones@,
{
    let mut r: Vec<LocationZoneCode> = Vec::new();
    let mut i: usize = 0;
    while i < zones.len()
        invariant
            i <= zones.len(),
            r@ == zones@.take(i as int),
        decreases zones.len() - i,
    {
        r.push(zones[i].clone());
        assert(zones@.take(i + 1) =~= zones@.take(i as int).push(zones@[i as int]));
        i = i + 1;
    }
    assert(zones@.take(i as int) =~= zones@);
    r
}

/// Relies on std's `Arc::clone`: a second pointer to the same shared value.
#[verifier::external_body]
pub(crate) fn share<T>(value: &Arc<T>) -> (r: Arc<T>)
    ensures
        r == *value,
{
    Arc::clone(value)
}

} // verus!
