//! What the broker knows of browser engines: their kinds and the state that
//! can be carried from one engine to another.

pub mod ladybird;
pub mod migration;
pub mod servo;
pub mod traits;

pub use migration::{LocalStorageEntry, MigrationCookie, MigrationEnvelope};
pub use traits::EngineKind;
