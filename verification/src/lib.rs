//! Bulk TCP reachability probing: the rules of the probing engine, verified.
//!
//! The crate holds everything the engine decides and computes: the compound
//! duration notation used for timeouts, the validated run configuration and
//! the size of the worker pool, the choice of the address to dial, the
//! course of one probe from lookup to outcome, and the text of each report
//! line. Sockets, clocks, name resolution and threads stay with the caller,
//! which hands their results in as plain values.

pub mod address;
pub mod config;
pub mod duration;
pub mod duration_laws;
pub mod outcome;
pub mod probe;
pub mod probe_laws;
pub mod text;
pub mod timespan;

pub use address::SocketAddress;
pub use config::{ConfigError, ConnTestCfg, ProbeTask};
pub use duration::{dur_from_str, dur_units, DurationError};
pub use outcome::{report_line, Elapsed, ProbeError, ProbeOutcome};
pub use probe::{step, ProbeAction, ProbeEvent, ProbeState};
pub use timespan::TimeSpan;
