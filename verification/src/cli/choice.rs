//! The engine that a command names.

use vstd::prelude::*;
use vstd::std_specs::convert::FromSpecImpl;

use crate::engines::traits::EngineKind;

verus! {

/// The engine chosen on the command line.
#[derive(Debug, Clone, Copy, PartialEq, Eq, Structural)]
pub enum EngineChoice {
    Servo,
    Ladybird,
}

impl From<EngineChoice> for EngineKind {
    fn from(value: EngineChoice) -> (r: Self) {
        match value {
            EngineChoice::Servo => EngineKind::Servo,
            EngineChoice::Ladybird => EngineKind::Ladybird,
        }
    }
}

impl FromSpecImpl<EngineChoice> for EngineKind {
    open spec fn obeys_from_spec() -> bool {
        true
    }

    open spec fn from_spec(value: EngineChoice) -> Self {
        match value {
            EngineChoice::Servo => EngineKind::Servo,
            EngineChoice::Ladybird => EngineKind::Ladybird,
        }
    }
}

} // verus!
