//! Threat-intelligence enrichment for a streaming log pipeline.
//!
//! Every record handed to the filter leaves it again, exactly once: either
//! unchanged, or with the indicators of compromise that a local database
//! knows attached to it. The library holds the filter's state machine
//! (one-time initialisation and timestamp-driven reload checks), the
//! per-record pipeline and the output buffer. Reading files and querying the
//! database are left to the caller, who performs the action that each step
//! of the state machine asks for and hands the result back as an event.

pub mod config;
pub mod extract;
pub mod json;
pub mod laws;
pub mod matches;
pub mod output;
pub mod record;
pub mod state;

pub use config::{
    default_flag_field, default_output_field, default_reload_interval, default_true, Config,
    ExtractorToggles,
};
pub use extract::{Indicator, IndicatorKind};
pub use matches::{select_matches, Lookup, Payload, ThreatMatch};
pub use output::{pass_through, OutputBuffer};
pub use record::{matchy_filter, Disposition, PassThrough};
pub use state::{
    Action, Engine, Event, FileStamp, FilterState, Loaded, Notice, Stage, Staged, StateView, Step,
};
