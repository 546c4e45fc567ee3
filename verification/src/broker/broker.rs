//! The router: which engine a page with given signals should be served by.

use vstd::prelude::*;

use super::confidence::scorer::{decision_of, ConfidenceScorer, ESCALATION_THRESHOLD};
use super::confidence::signals::ConfidenceSignals;
use super::confidence::EngineDecision;
use crate::engines::traits::EngineKind;

verus! {

/// Routes pages between the engine it was made for and Ladybird.
#[derive(Debug)]
pub struct Broker {
    engine: EngineKind,
    stealth: bool,
    scorer: ConfidenceScorer,
}

impl Broker {
    /// The engine that the broker was made for.
    pub closed spec fn engine(&self) -> EngineKind {
        self.engine
    }

    /// Whether the broker may route away from its engine.
    pub closed spec fn stealth(&self) -> bool {
        self.stealth
    }

    /// The threshold that the broker scores against.
    pub closed spec fn threshold(&self) -> u32 {
        self.scorer.escalation_threshold
    }

    /// A broker for `engine` that scores against the default threshold.
    pub fn new(engine: EngineKind, stealth: bool) -> (r: Self)
        ensures
            r.engine() == engine,
            r.stealth() == stealth,
            r.threshold() == ESCALATION_THRESHOLD,
    {
        Broker { engine, stealth, scorer: ConfidenceScorer::new() }
    }

    /// The engine for a page with the given signals: Ladybird where the
    /// broker is in stealth and the scorer escalates, else the broker's own.
    pub fn route(&self, signals: &ConfidenceSignals) -> (r: EngineKind)
        ensures
            r == if self.stealth() && decision_of(
                *signals,
                self.threshold(),
            ) is EscalateToLadybird {
                EngineKind::Ladybird
            } else {
                self.engine()
            },
    {
        let report = self.scorer.score(signals);
        let escalates = match report.decision {
            EngineDecision::EscalateToLadybird(_) => true,
            _ => false,
        };
        if self.stealth && escalates {
            EngineKind::Ladybird
        } else {
            self.engine
        }
    }
}

} // verus!
