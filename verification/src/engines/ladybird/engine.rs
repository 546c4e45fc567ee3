//! The Ladybird engine, which is known to the broker but not wired yet.

use vstd::prelude::*;

use crate::engines::traits::EngineKind;

verus! {

/// A Ladybird session. Every operation on it fails until the engine is
/// wired.
#[derive(Debug, Clone, Copy)]
pub struct LadybirdEngine;

impl LadybirdEngine {
    /// The engine's kind.
    pub fn kind(&self) -> (r: EngineKind)
        ensures
            r == EngineKind::Ladybird,
    {
        EngineKind::Ladybird
    }

    /// The engine's name.
    pub fn name(&self) -> (r: &'static str)
        ensures
            r@ == "ladybird"@,
    {
        "ladybird"
    }
}

impl Default for LadybirdEngine {
    fn default() -> (r: Self) {
        LadybirdEngine
    }
}

} // verus!
