//! Host telemetry snapshots and the decision logic of a text fetch over HTTP.
//!
//! `interfaces` holds the per-interface byte counters and their totals,
//! `snapshot` the record that one probe call returns, `probe` the shared
//! probe over the operating system's samplers, and `fetch` the protocol of a
//! single GET with a fixed client identity.

pub mod fetch;
pub mod interfaces;
pub mod probe;
pub mod snapshot;
