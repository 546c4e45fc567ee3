//! Core of a headless-browser orchestration runtime: the confidence scorer,
//! the broker's state machines and the data that crosses an engine handoff.

pub mod broker;
pub mod cli;
pub mod engines;
pub mod js;
pub mod json;
pub mod network;
pub mod stealth;
pub mod text;
