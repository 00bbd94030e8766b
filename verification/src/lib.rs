//! Verified core of a lightweight system monitor: command-line mode
//! selection, alert hysteresis, metric counters, thermal-zone selection,
//! device identity and the per-client streaming decisions.

pub mod cli;
pub mod text;
pub mod alerting;
pub mod metrics;
pub mod identity;
pub mod stream;
pub mod ui;
