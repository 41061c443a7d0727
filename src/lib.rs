//! File sharing core: adaptive chunked reading, transfer telemetry,
//! progress aggregation and batch orchestration, verified with Verus.

pub mod reader;
pub mod monitor;
pub mod tracker;
pub mod models;
pub mod errors;
pub mod orchestrator;
pub mod naming;
pub mod client;
pub mod storage;
pub mod upload;
pub mod app_state;
pub mod storage_state;
pub mod cli;
pub mod utils;
