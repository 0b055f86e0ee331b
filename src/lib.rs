//! Energy telemetry for GPUs: measurement campaigns, their garbage
//! collection and the energy deltas reported against them.
pub mod config;
pub mod energy;
pub mod gc;
pub mod health;
pub mod param;
pub mod telemetry;
pub mod util;
