use vstd::prelude::*;
use crate::ids::LocationZoneCode;

verus! {

#[derive(Debug, Clone, Copy, PartialEq, Eq, Structural)]
pub enum AlertStatus {
    Actual,
    Exercise,
    System,
    Test,
    Draft,
}

#[derive(Debug, Clone, Copy, PartialEq, Eq, Structural)]
pub enum AlertMessageType {
    Actual,
    Alert,
    Update,
    Cancel,
    Test,
}

#[derive(Debug, Clone, Copy, PartialEq, Eq, Structural)]
pub enum AlertCategory {
    Met,
    Geo,
    Safety,
    Security,
    Rescue,
    Fire,
    Health,
    Env,
    Transport,
    Infra,
    CBRNE,
    Other,
}

#[derive(Debug, Clone, Copy, PartialEq, Eq, Structural)]
pub enum AlertSeverity {
    Extreme,
    Severe,
    Moderate,
    Minor,
    Unknown,
}

#[derive(Debug, Clone, Copy, PartialEq, Eq, Structural)]
pub enum AlertCertainty {
    Observed,
    Likely,
    Possible,
    Unlikely,
    Unknown,
}

#[derive(Debug, Clone, Copy, PartialEq, Eq, Structural)]
pub enum AlertUrgency {
    Immediate,
    Expected,
    Future,
    Past,
    Unknown,
}

#[derive(Debug, Clone, Copy, PartialEq, Eq, Structural)]
pub enum AlertResponse {
    Shelter,
    Evacuate,
    Prepare,
    Execute,
    Avoid,
    Monitor,
    Assess,
    AllClear,
    NoAction,
}

/// An active weather alert. Times are milliseconds since the Unix epoch.
#[derive(Debug)]
pub struct WeatherAlert {
    pub affected_zones: Vec<LocationZoneCode>,
    pub status: AlertStatus,
    pub message_type: AlertMessageType,
    pub sent: i64,
    pub effective: i64,
    pub onset: Option<i64>,
    pub expires: i64,
    pub ends: Option<i64>,
    pub category: AlertCategory,
    pub severity: AlertSeverity,
    pub certainty: AlertCertainty,
    pub urgency: AlertUrgency,
    pub event: String,
    pub headline: Option<String>,
    pub description: String,
    pub instruction: Option<String>,
    pub response: AlertResponse,
}

impl WeatherAlert {
    /// The codes of the zones the alert affects.
    pub open spec fn affected(&self) -> Seq<Seq<char>> {
        self.affected_zones@.map_values(|z: LocationZoneCode| z@)
    }
}

/// One named period of a zone forecast.
#[derive(Debug)]
pub struct ForecastDetail {
    pub name: String,
    pub forecast: String,
}

/// A zone's forecast; `updated` is in milliseconds since the Unix epoch.
#[derive(Debug)]
pub struct ZoneForecast {
    pub zone_code: String,
    pub updated: i64,
    pub periods: Vec<ForecastDetail>,
}

} // verus!
