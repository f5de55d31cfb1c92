//! Offloads the common table expressions of queries that a database host is
//! about to plan to an embedded analytical engine, without touching the
//! host's own plan.

pub mod batch;
pub mod config;
pub mod cte;
pub mod dispatch;
pub mod engine;
pub mod error;
pub mod hooks;
