//! Event-sourced weather monitoring: the decision model that turns commands into
//! events against an append-only log, the "update weather" saga that tracks each
//! zone of a run until the run finishes, and the read-model projections over the log.

/// The outcome type of a command, and a helper on lists of results.
pub mod command_result;
/// Zone codes, run identifiers and zone URLs.
pub mod ids;
/// Quality-graded aggregation of observations, and weather frames.
pub mod frame;
/// Alerts and forecasts as the provider reports them.
pub mod weather_data;
/// The two event families.
pub mod events;
/// The append-only event log with per-slice optimistic concurrency.
pub mod event_log;
/// The registrar: the set of monitored zones, its commands and read model.
pub mod registrar;
/// The three independent slices of a zone and the zone commands.
pub mod zone;
/// Per-zone progress within a run.
pub mod status;
/// The state of an active run and the saga's transition model.
pub mod update_state;
/// The saga aggregate and its commands.
pub mod update;
/// Termination and finality of the saga.
pub mod saga_laws;
/// The decision engine: read a slice, decide, append.
pub mod decision;
/// The commands callers issue, over the log.
pub mod api;
/// What a started run launches and how fetch outcomes become commands.
pub mod orchestrator;
/// A keyed table of rows.
pub mod table;
/// The `zone_weather` and `update_weather_history` read models.
pub mod projection;
