//! The session's view of the network: its cookies and the identity it shows.

pub mod cookie_jar;
pub mod stealth;
