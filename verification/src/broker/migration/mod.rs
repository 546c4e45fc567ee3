//! What the broker remembers of a session that can move between engines.

pub mod state;
