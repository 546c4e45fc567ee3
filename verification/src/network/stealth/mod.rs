//! The identity that a session presents to servers.

pub mod h2;
pub mod identity;
pub mod tls;
