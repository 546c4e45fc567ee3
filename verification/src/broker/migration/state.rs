//! The broker's record of a session.

use vstd::prelude::*;

use crate::engines::traits::EngineKind;

verus! {

/// A session that can be moved: its id, the engine that serves it and the
/// URL it was on last.
#[derive(Debug, Clone)]
pub struct MigratableSessionState {
    pub session_id: String,
    pub active_engine: EngineKind,
    pub last_url: Option<String>,
}

} // verus!
