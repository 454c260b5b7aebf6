use vstd::prelude::*;
use vstd::string::StringExecFns;
use crate::ids::same_text;

verus! {

/// One of the things recorded for a zone during an update run.
#[derive(Debug, Clone, Copy, PartialEq, Eq, Structural)]
pub enum UpdateStep {
    Observation,
    Forecast,
    Alert,
}

/// A set of update steps.
#[derive(Debug, Clone, Copy, PartialEq, Eq, Structural)]
pub struct UpdateSteps {
    pub observation: bool,
    pub forecast: bool,
    pub alert: bool,
}

impl UpdateSteps {
    pub open spec fn has(self, step: UpdateStep) -> bool {
        match step {
            UpdateStep::Observation => self.observation,
            UpdateStep::Forecast => self.forecast,
            UpdateStep::Alert => self.alert,
        }
    }

    /// Observation and forecast both recorded: all that a zone needs to succeed.
    pub open spec fn sufficient(self) -> bool {
        self.observation && self.forecast
    }

    pub fn empty() -> (r: Self)
        ensures
            r == (UpdateSteps { observation: false, forecast: false, alert: false }),
            forall|s: UpdateStep| !r.has(s),
    {
        UpdateSteps { observation: false, forecast: false, alert: false }
    }

    pub fn contains(&self, step: UpdateStep) -> (r: bool)
        ensures
            r == self.has(step),
    {
        match step {
            UpdateStep::Observation => self.observation,
            UpdateStep::Forecast => self.forecast,
            UpdateStep::Alert => self.alert,
        }
    }

    pub open spec fn with_spec(self, step: UpdateStep) -> UpdateSteps {
        match step {
            UpdateStep::Observation => UpdateSteps { observation: true, ..self },
            UpdateStep::Forecast => UpdateSteps { forecast: true, ..self },
            UpdateStep::Alert => UpdateSteps { alert: true, ..self },
        }
    }

    pub open spec fn union_spec(self, other: UpdateSteps) -> UpdateSteps {
        UpdateSteps {
            observation: self.observation || other.observation,
            forecast: self.forecast || other.forecast,
            alert: self.alert || other.alert,
        }
    }

    /// These steps together with `step`.
    pub fn with(self, step: UpdateStep) -> (r: Self)
        ensures
            r == self.with_spec(step),
            forall|s: UpdateStep| r.has(s) == (self.has(s) || s == step),
    {
        match step {
            UpdateStep::Observation => UpdateSteps { observation: true, ..self },
            UpdateStep::Forecast => UpdateSteps { forecast: true, ..self },
            UpdateStep::Alert => UpdateSteps { alert: true, ..self },
        }
    }

    /// The union of two step sets.
    pub fn union(self, other: Self) -> (r: Self)
        ensures
            r == self.union_spec(other),
            forall|s: UpdateStep| r.has(s) == (self.has(s) || other.has(s)),
    {
        UpdateSteps {
            observation: self.observation || other.observation,
            forecast: self.forecast || other.forecast,
            alert: self.alert || other.alert,
        }
    }

    pub fn is_sufficient(&self) -> (r: bool)
        ensures
            r == self.sufficient(),
    {
        self.observation && self.forecast
    }
}

/// Where one zone stands within an update run.
#[derive(Debug, Clone, Copy, PartialEq, Eq, Structural)]
pub enum LocationUpdateStatus {
    InProgress(UpdateSteps),
    Succeeded,
    Failed,
}

impl LocationUpdateStatus {
    /// Succeeded or failed, or in progress with every step that success needs.
    pub open spec fn completed(self) -> bool {
        match self {
            LocationUpdateStatus::InProgress(steps) => steps.sufficient(),
            _ => true,
        }
    }

    /// In progress although both observation and forecast are recorded: a status that
    /// recording steps never leaves behind.
    pub open spec fn stuck(self) -> bool {
        match self {
            LocationUpdateStatus::InProgress(steps) => steps.sufficient(),
            _ => false,
        }
    }

    /// The status after `step` has been recorded.
    pub open spec fn advanced(self, step: UpdateStep) -> LocationUpdateStatus {
        match self {
            LocationUpdateStatus::InProgress(steps) => {
                let n = steps.with_spec(step);
                if n.sufficient() {
                    LocationUpdateStatus::Succeeded
                } else {
                    LocationUpdateStatus::InProgress(n)
                }
            },
            _ => self,
        }
    }

    /// The status after every step of `steps` has been recorded.
    pub open spec fn added(self, steps: UpdateSteps) -> LocationUpdateStatus {
        match self {
            LocationUpdateStatus::InProgress(c) => {
                let n = c.union_spec(steps);
                if n.sufficient() {
                    LocationUpdateStatus::Succeeded
                } else {
                    LocationUpdateStatus::InProgress(n)
                }
            },
            _ => self,
        }
    }

    /// Two statuses of one zone combined: a failure wins, then a success; otherwise
    /// the union of the recorded steps.
    pub open spec fn combined(self, other: LocationUpdateStatus) -> LocationUpdateStatus {
        match (self, other) {
            (LocationUpdateStatus::Failed, _) => LocationUpdateStatus::Failed,
            (_, LocationUpdateStatus::Failed) => LocationUpdateStatus::Failed,
            (LocationUpdateStatus::Succeeded, _) => LocationUpdateStatus::Succeeded,
            (_, LocationUpdateStatus::Succeeded) => LocationUpdateStatus::Succeeded,
            (LocationUpdateStatus::InProgress(a), LocationUpdateStatus::InProgress(b)) =>
                LocationUpdateStatus::spec_initial().added(a.union_spec(b)),
        }
    }

    pub open spec fn spec_initial() -> LocationUpdateStatus {
        LocationUpdateStatus::InProgress(UpdateSteps { observation: false, forecast: false, alert: false })
    }

    pub fn succeeded() -> (r: Self)
        ensures
            r == LocationUpdateStatus::Succeeded,
    {
        LocationUpdateStatus::Succeeded
    }

    pub fn failed() -> (r: Self)
        ensures
            r == LocationUpdateStatus::Failed,
    {
        LocationUpdateStatus::Failed
    }

    /// Whether `step` counts as done: always once the zone is terminal.
    pub fn contains(&self, step: UpdateStep) -> (r: bool)
        ensures
            r == (match *self {
                LocationUpdateStatus::InProgress(steps) => steps.has(step),
                _ => true,
            }),
    {
        match self {
            LocationUpdateStatus::InProgress(completed) => completed.contains(step),
            _ => true,
        }
    }

    /// Records `step`; an in-progress zone that then has both observation and
    /// forecast becomes `Succeeded`. A terminal status does not change.
    pub fn advance(&mut self, step: UpdateStep)
        ensures
            *final(self) == old(self).advanced(step),
    {
        match *self {
            LocationUpdateStatus::InProgress(completed) => {
                let new_completed = completed.with(step);
                assert(new_completed == completed.with_spec(step));
                *self = if new_completed.is_sufficient() {
                    LocationUpdateStatus::Succeeded
                } else {
                    LocationUpdateStatus::InProgress(new_completed)
                };
            },
            _ => {},
        }
    }

    pub fn is_completed(&self) -> (r: bool)
        ensures
            r == self.completed(),
    {
        match self {
            LocationUpdateStatus::InProgress(completed) => completed.is_sufficient(),
            _ => true,
        }
    }

    pub fn is_active(&self) -> (r: bool)
        ensures
            r == !self.completed(),
    {
        !self.is_completed()
    }

    /// The status with `step` recorded.
    pub fn plus_step(self, step: UpdateStep) -> (r: Self)
        ensures
            r == self.advanced(step),
    {
        let mut s = self;
        s.advance(step);
        s
    }

    /// The status with every step of `steps` recorded.
    pub fn plus_steps(self, steps: UpdateSteps) -> (r: Self)
        ensures
            r == self.added(steps),
    {
        match self {
            LocationUpdateStatus::InProgress(completed) => {
                let n = completed.union(steps);
                if n.is_sufficient() {
                    LocationUpdateStatus::Succeeded
                } else {
                    LocationUpdateStatus::InProgress(n)
                }
            },
            _ => self,
        }
    }

    /// Combines two statuses of one zone.
    pub fn plus(self, rhs: Self) -> (r: Self)
        ensures
            r == self.combined(rhs),
    {
        match (self, rhs) {
            (LocationUpdateStatus::Failed, _) => LocationUpdateStatus::Failed,
            (_, LocationUpdateStatus::Failed) => LocationUpdateStatus::Failed,
            (LocationUpdateStatus::Succeeded, _) => LocationUpdateStatus::Succeeded,
            (_, LocationUpdateStatus::Succeeded) => LocationUpdateStatus::Succeeded,
            (LocationUpdateStatus::InProgress(a), LocationUpdateStatus::InProgress(b)) => {
                LocationUpdateStatus::default().plus_steps(a.union(b))
            },
        }
    }
}

impl Default for LocationUpdateStatus {
    /// In progress, with no step recorded.
    fn default() -> (r: Self)
        ensures
            r == LocationUpdateStatus::spec_initial(),
    {
        LocationUpdateStatus::InProgress(UpdateSteps::empty())
    }
}

/// A step's name in the stored status format.
pub open spec fn step_name(s: UpdateStep) -> Seq<char> {
    match s {
        UpdateStep::Observation => "observation"@,
        UpdateStep::Forecast => "forecast"@,
        UpdateStep::Alert => "alert"@,
    }
}

/// The quoted names of the steps, in the order observation, forecast, alert,
/// separated by commas.
pub open spec fn steps_json(c: UpdateSteps) -> Seq<char> {
    let o: Seq<Seq<char>> = if c.observation { seq!["\"observation\""@] } else { seq![] };
    let f: Seq<Seq<char>> = if c.forecast { seq!["\"forecast\""@] } else { seq![] };
    let a: Seq<Seq<char>> = if c.alert { seq!["\"alert\""@] } else { seq![] };
    join_with_commas(o + f + a)
}

pub open spec fn join_with_commas(parts: Seq<Seq<char>>) -> Seq<char>
    decreases parts.len(),
{
    if parts.len() == 0 {
        seq![]
    } else if parts.len() == 1 {
        parts[0]
    } else {
        join_with_commas(parts.drop_last()) + ","@ + parts.last()
    }
}

/// The stored form of a status: a JSON object with the status, and for a zone in
/// progress the steps it completed.
pub open spec fn status_json(st: LocationUpdateStatus) -> Seq<char> {
    match st {
        LocationUpdateStatus::Succeeded => "{\"status\":\"succeeded\"}"@,
        LocationUpdateStatus::Failed => "{\"status\":\"failed\"}"@,
        LocationUpdateStatus::InProgress(c) => "{\"status\":\"in_progress\",\"completed\":["@ + steps_json(c) + "]}"@,
    }
}

/// Why stored status fields could not be read.
#[derive(Debug)]
pub enum StatusFieldError {
    /// The status is none of `succeeded`, `failed`, `in_progress` (the value read).
    InvalidStatus(String),
    /// A status in progress without its completed steps.
    MissingCompleted,
}

impl UpdateStep {
    /// The step a stored name stands for.
    pub fn from_name(name: &str) -> (r: Option<UpdateStep>)
        ensures
            r is Some <==> (name@ == "observation"@ || name@ == "forecast"@ || name@ == "alert"@),
            r is Some ==> step_name(r->Some_0) == name@,
    {
        proof {
            reveal_strlit("observation");
            reveal_strlit("forecast");
            reveal_strlit("alert");
        }
        if same_text(name, "observation") {
            Some(UpdateStep::Observation)
        } else if same_text(name, "forecast") {
            Some(UpdateStep::Forecast)
        } else if same_text(name, "alert") {
            Some(UpdateStep::Alert)
        } else {
            None
        }
    }
}

/// The status that recording `steps` in order gives, from in progress with none.
pub open spec fn replayed(steps: Seq<UpdateStep>) -> LocationUpdateStatus
    decreases steps.len(),
{
    if steps.len() == 0 {
        LocationUpdateStatus::spec_initial()
    } else {
        replayed(steps.drop_last()).advanced(steps.last())
    }
}

impl LocationUpdateStatus {
    /// The stored form of the status.
    pub fn to_json(&self) -> (r: String)
        ensures
            r@ == status_json(*self),
    {
        proof {
            reveal_strlit("{\"status\":\"succeeded\"}");
            reveal_strlit("{\"status\":\"failed\"}");
            reveal_strlit("{\"status\":\"in_progress\",\"completed\":[");
            reveal_strlit("]}");
            reveal_strlit(",");
            reveal_strlit("\"observation\"");
            reveal_strlit("\"forecast\"");
            reveal_strlit("\"alert\"");
        }
        match self {
            LocationUpdateStatus::Succeeded => String::from_str("{\"status\":\"succeeded\"}"),
            LocationUpdateStatus::Failed => String::from_str("{\"status\":\"failed\"}"),
            LocationUpdateStatus::InProgress(c) => {
                let mut out = String::from_str("{\"status\":\"in_progress\",\"completed\":[");
                let ghost head = out@;
                let ghost mut parts: Seq<Seq<char>> = seq![];
                let mut any = false;
                if c.observation {
                    out.append("\"observation\"");
                    proof {
                        parts = parts.push("\"observation\""@);
                    }
                    any = true;
                }
                assert(any == (parts.len() > 0));
                assert(out@ == head + join_with_commas(parts));
                if c.forecast {
                    if any {
                        out.append(",");
                    }
                    out.append("\"forecast\"");
                    assert(parts.push("\"forecast\""@).drop_last() =~= parts);
                    proof {
                        parts = parts.push("\"forecast\""@);
                    }
                    any = true;
                }
                assert(any == (parts.len() > 0));
                assert(out@ =~= head + join_with_commas(parts));
                if c.alert {
                    if any {
                        out.append(",");
                    }
                    out.append("\"alert\"");
                    assert(parts.push("\"alert\""@).drop_last() =~= parts);
                    proof {
                        parts = parts.push("\"alert\""@);
                    }
                }
                assert(out@ =~= head + join_with_commas(parts));
                let ghost o: Seq<Seq<char>> = if c.observation { seq!["\"observation\""@] } else { seq![] };
                let ghost f: Seq<Seq<char>> = if c.forecast { seq!["\"forecast\""@] } else { seq![] };
                let ghost a: Seq<Seq<char>> = if c.alert { seq!["\"alert\""@] } else { seq![] };
                assert(parts =~= o + f + a);
                out.append("]}");
                out
            },
        }
    }

    /// A status read back from its stored fields: `succeeded`, `failed`, or
    /// `in_progress` with the completed steps, which are recorded in order.
    pub fn from_fields(status: &str, completed: Option<Vec<UpdateStep>>) -> (r: Result<Self, StatusFieldError>)
        ensures
            status@ == "succeeded"@ ==> r == Ok::<Self, StatusFieldError>(LocationUpdateStatus::Succeeded),
            status@ == "failed"@ ==> r == Ok::<Self, StatusFieldError>(LocationUpdateStatus::Failed),
            status@ == "in_progress"@ ==> match completed {
                Some(steps) => r == Ok::<Self, StatusFieldError>(replayed(steps@)),
                None => r matches Err(StatusFieldError::MissingCompleted),
            },
            !(status@ == "succeeded"@ || status@ == "failed"@ || status@ == "in_progress"@) ==> match r {
                Err(StatusFieldError::InvalidStatus(s)) => s@ == status@,
                _ => false,
            },
    {
        proof {
            reveal_strlit("succeeded");
            reveal_strlit("failed");
            reveal_strlit("in_progress");
            assert("succeeded"@.len() == 9 && "failed"@.len() == 6 && "in_progress"@.len() == 11);
        }
        if same_text(status, "succeeded") {
            Ok(LocationUpdateStatus::Succeeded)
        } else if same_text(status, "failed") {
            Ok(LocationUpdateStatus::Failed)
        } else if same_text(status, "in_progress") {
            match completed {
                None => Err(StatusFieldError::MissingCompleted),
                Some(steps) => {
                    let mut wip = LocationUpdateStatus::default();
                    let mut i: usize = 0;
                    while i < steps.len()
                        invariant
                            i <= steps@.len(),
                            wip == replayed(steps@.take(i as int)),
                        decreases steps.len() - i,
                    {
                        assert(steps@.take(i + 1).drop_last() =~= steps@.take(i as int));
                        wip.advance(steps[i]);
                        i = i + 1;
                    }
                    assert(steps@.take(i as int) =~= steps@);
                    Ok(wip)
                },
            }
        } else {
            Err(StatusFieldError::InvalidStatus(String::from_str(status)))
        }
    }
}

} // verus!
