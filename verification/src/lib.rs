//! Verified core of the lueur fault-injection proxy: option types and
//! their parsing, CLI value validation, upstream resolution rules, the
//! bandwidth throttling arithmetic and admission decisions, the packet
//! loss state model, error classification and report aggregation.

pub mod text;
pub mod types;
pub mod cli;
pub mod config;
pub mod errors;
pub mod proxy;
pub mod bandwidth;
pub mod packet_loss;
pub mod event;
pub mod reporting;
pub mod termui;
pub mod scenario;
pub mod plugin;
pub mod jitter;
pub mod delay;
pub mod display;
