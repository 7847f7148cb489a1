//! Durable workflow delivery: protocol identity, verification of delivered
//! artifacts, the relay's delivery and run endpoints, and the switch-perf log.

pub mod deliveries;
pub mod delivery_verifier;
pub mod event;
pub mod hex_text;
pub mod ids;
pub mod kind;
pub mod perf_log;
pub mod relay_io;
pub mod run_reads;
pub mod text;
pub mod wire;
pub mod workflow_api;
pub mod workflow_delivery;

