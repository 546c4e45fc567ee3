//! The broker: scoring of navigations, engine roles and the service loop.

pub mod broker;
pub mod confidence;
pub mod engine_factory;
pub mod handoff;
pub mod metadata;
pub mod migration;
pub mod run;
pub mod service;
pub mod state;

pub use broker::Broker;
pub use service::BrokerRequest;
