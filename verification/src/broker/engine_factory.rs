//! How the secondary engine of an escalation comes to be.

use vstd::prelude::*;

use crate::engines::traits::EngineKind;
use crate::text::{trim, trimmed};

verus! {

/// The way to a secondary engine.
#[derive(Debug, Clone, PartialEq, Eq)]
pub enum SecondaryLaunch {
    /// Attach to the WebDriver endpoint at the address.
    Attach(String),
    /// Start an engine process of one's own.
    Spawn,
}

/// The factory that the broker uses unless it is given another. Whatever
/// the target of the escalation, the secondary is a second Servo.
#[derive(Debug, Clone, Copy)]
pub struct DefaultEscalationEngineFactory;

impl DefaultEscalationEngineFactory {
    /// The kind of engine that is made for an escalation to `target`.
    pub fn engine_for(&self, target: EngineKind) -> (r: EngineKind)
        ensures
            r == EngineKind::Servo,
    {
        match target {
            EngineKind::Ladybird => EngineKind::Servo,
            EngineKind::Servo => EngineKind::Servo,
        }
    }

    /// The way to the secondary, given what the environment names as its
    /// endpoint: attach to the endpoint, trimmed, where one is named and is
    /// more than white space, and spawn otherwise.
    pub fn launch_for(&self, endpoint: Option<&str>) -> (r: SecondaryLaunch)
        ensures
            match endpoint {
                Some(named) if trimmed(named@).len() > 0 => r matches SecondaryLaunch::Attach(url)
                    && url@ == trimmed(named@),
                _ => r is Spawn,
            },
    {
        match endpoint {
            Some(named) => {
                let endpoint = trim(named);
                if endpoint.is_empty() {
                    SecondaryLaunch::Spawn
                } else {
                    SecondaryLaunch::Attach(endpoint.to_owned())
                }
            },
            None => SecondaryLaunch::Spawn,
        }
    }
}

} // verus!
