//! Confidence signals and the scorer that turns them into a routing decision.

pub mod scorer;
pub mod signals;

pub use scorer::{ConfidenceReport, ConfidenceScorer, EngineDecision, FailureReason};
pub use signals::ConfidenceSignals;
