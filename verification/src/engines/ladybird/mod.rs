//! The Ladybird engine.

pub mod engine;
