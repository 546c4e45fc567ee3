//! The Servo engine behind a WebDriver endpoint.

pub mod engine;
pub mod wire;
