//! What makes a session look like a browser in a person's hands.

pub mod behavioral;
pub mod canvas;
pub mod profiles;
