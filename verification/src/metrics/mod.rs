//! Metric collection: CPU temperature zones, memory, disk and network
//! counters.

pub mod cpu_temp;
pub mod counter;
pub mod sys;
pub mod disk;
pub mod network;
