//! Adaptive resource allocation for a host that shares its CPU and GPU between
//! an interactive foreground and background compute workers.
//!
//! Everything here is pure: the caller samples the host, holds the lock around
//! the runtime state and programs the resource controller; this crate decides
//! what the readings mean, which allocation a mode calls for, when the thermal
//! override engages and what has to be written.

pub mod api;
pub mod cgroups;
pub mod config;
pub mod control;
pub mod decimal;
pub mod gpu_tool;
pub mod scheduler;
pub mod state;
pub mod telemetry;
pub mod text;
pub mod units;
