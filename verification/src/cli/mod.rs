//! What the command line chooses.

pub mod choice;

pub use choice::EngineChoice;
