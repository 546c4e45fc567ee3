//! The kinds of engine.

use vstd::prelude::*;

verus! {

/// The browser engine behind a session.
#[derive(Debug, Clone, Copy, PartialEq, Eq, Structural)]
pub enum EngineKind {
    Servo,
    Ladybird,
}

impl EngineKind {
    /// The engine's name in lower case.
    pub fn as_str(&self) -> (r: &'static str)
        ensures
            r@ == (match *self {
                EngineKind::Servo => "servo"@,
                EngineKind::Ladybird => "ladybird"@,
            }),
    {
        match self {
            EngineKind::Servo => "servo",
            EngineKind::Ladybird => "ladybird",
        }
    }
}

} // verus!
