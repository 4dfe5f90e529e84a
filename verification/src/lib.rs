//! Keeps a tunnel reachable over one of two network paths.
//!
//! The library holds the part that decides. It reads what the probes found
//! ([`network`], [`health`]), scores the two paths ([`speed`]), chooses
//! between them ([`decision`]), keeps a change of path from following the
//! last one too closely ([`guard`]), and says which route is to be set
//! ([`controller`]). The settings come from [`config`]. Probing and setting
//! routes are left to the caller: the library takes what the system's tools
//! printed and hands back what they are to be told.
//!
//! Times are whole seconds on a clock that does not go back, latencies whole
//! microseconds, and qualities whole numbers; a latency or quality of 0 is
//! one that is not known.

pub mod config;
pub mod controller;
pub mod decision;
pub mod errors;
pub mod guard;
pub mod health;
pub mod network;
pub mod speed;
pub mod text;

pub use config::FailoverConfig;
pub use controller::NetworkStatus;
pub use errors::{FailoverError, FailoverResult};
