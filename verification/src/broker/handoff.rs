//! The handoff: the five steps that move a session from the primary engine
//! to a secondary one.
//!
//! The steps are the engines' work; what to do after each is decided here.
//! A handoff starts with [`Handoff::start`], which asks for the first step.
//! Whoever runs the engines performs the step asked for and reports its
//! outcome to [`Handoff::advance`], which asks for the next step or ends the
//! handoff. One budget of time covers all the steps: an outcome that comes
//! when the budget is spent ends the handoff as timed out.
//!
//! Time is a reading of a monotonic clock in milliseconds.

use vstd::multiset::Multiset;
use vstd::pervasive::unreached;
use vstd::prelude::*;
use vstd::string::StringExecFns;

use super::state::ESCALATION_TIMEOUT_MS;
use crate::engines::migration::MigrationEnvelope;
use crate::engines::traits::EngineKind;

verus! {

/// What a handoff that succeeded hands over.
pub struct HandoffResult<E> {
    /// The engine that takes over.
    pub secondary: E,
    /// The metadata of the secondary's last navigation.
    pub result_json: String,
    /// Whether the secondary navigated again after the import.
    pub performed_final_navigate: bool,
    /// How many entries were handed to the secondary for import.
    pub imported_entry_count: usize,
}

/// The steps of a handoff, and the timeout that may end it at any of them.
#[derive(Debug, Clone, Copy, PartialEq, Eq, Structural)]
pub enum HandoffStep {
    Extract,
    Create,
    Bootstrap,
    Import,
    FinalNavigate,
    Timeout,
}

/// Why a handoff failed.
pub struct HandoffFailure<E> {
    /// The step that failed, or the timeout.
    pub step: HandoffStep,
    /// What the engine or the factory said of the failure.
    pub cause: String,
    /// The secondary, where one had been made: it is the caller's to close.
    pub abandoned: Option<E>,
}

/// A handoff in progress: the time at which its budget is spent, and how far
/// it has come.
pub struct Handoff<E> {
    pub deadline_ms: u64,
    pub stage: HandoffStage<E>,
}

/// How far a handoff has come: the step whose outcome is awaited, and what
/// the steps before it have brought.
pub enum HandoffStage<E> {
    /// The primary's state is being extracted.
    Extracting,
    /// The secondary is being made.
    Creating { envelope: MigrationEnvelope },
    /// The secondary is navigating for the first time.
    Bootstrapping { envelope: MigrationEnvelope, secondary: E },
    /// The secondary is importing the state.
    Importing { secondary: E, entry_count: usize },
    /// The secondary is navigating again, with the state restored.
    Renavigating { secondary: E, entry_count: usize },
    /// The handoff has ended.
    Finished,
}

/// The outcome of a step, as whoever ran it reports it. A failure is told by
/// its message.
pub enum HandoffEvent<E> {
    Extracted(Result<MigrationEnvelope, String>),
    Created(Result<E, String>),
    Navigated(Result<String, String>),
    Imported(Result<(), String>),
    /// The time allowed for the handoff has passed.
    TimedOut,
}

/// What a handoff asks for next.
pub enum HandoffAction<E> {
    /// Extract the state of the primary.
    ExtractState,
    /// Make a secondary of the given kind.
    CreateSecondary(EngineKind),
    /// Navigate the secondary to the page's URL.
    Navigate,
    /// Import the envelope into the secondary.
    ImportState(MigrationEnvelope),
    /// The handoff has succeeded.
    Succeed(HandoffResult<E>),
    /// The handoff has failed.
    Fail(HandoffFailure<E>),
}

/// What a failure of the given step is called in a message.
pub open spec fn step_label(step: HandoffStep) -> Seq<char> {
    match step {
        HandoffStep::Extract => "extract_state failed: "@,
        HandoffStep::Create => "factory.create_for_escalation failed: "@,
        HandoffStep::Bootstrap => "secondary bootstrap navigate failed: "@,
        HandoffStep::Import => "import_state failed: "@,
        HandoffStep::FinalNavigate => "secondary final navigate failed: "@,
        HandoffStep::Timeout => "handoff timed out: "@,
    }
}

impl<E> HandoffFailure<E> {
    /// The failure in words: the step's label and the cause.
    pub fn message(&self) -> (r: String)
        ensures
            r@ == step_label(self.step) + self.cause@,
    {
        let label = match self.step {
            HandoffStep::Extract => "extract_state failed: ",
            HandoffStep::Create => "factory.create_for_escalation failed: ",
            HandoffStep::Bootstrap => "secondary bootstrap navigate failed: ",
            HandoffStep::Import => "import_state failed: ",
            HandoffStep::FinalNavigate => "secondary final navigate failed: ",
            HandoffStep::Timeout => "handoff timed out: ",
        };
        let mut text = label.to_owned();
        text.append(self.cause.as_str());
        text
    }
}

/// The time at which the budget of a handoff that starts at `now_ms` is
/// spent.
pub open spec fn deadline_from(now_ms: u64) -> u64 {
    if now_ms + ESCALATION_TIMEOUT_MS > u64::MAX {
        u64::MAX
    } else {
        (now_ms + ESCALATION_TIMEOUT_MS) as u64
    }
}

impl<E> HandoffStage<E> {
    /// The step whose outcome is awaited, if the handoff has not ended.
    pub open spec fn awaited(&self) -> Option<HandoffStep> {
        match *self {
            HandoffStage::Extracting => Some(HandoffStep::Extract),
            HandoffStage::Creating { .. } => Some(HandoffStep::Create),
            HandoffStage::Bootstrapping { .. } => Some(HandoffStep::Bootstrap),
            HandoffStage::Importing { .. } => Some(HandoffStep::Import),
            HandoffStage::Renavigating { .. } => Some(HandoffStep::FinalNavigate),
            HandoffStage::Finished => None,
        }
    }

    /// The secondary that the handoff holds, if one has been made.
    pub open spec fn held(&self) -> Option<E> {
        match *self {
            HandoffStage::Bootstrapping { secondary, .. } => Some(secondary),
            HandoffStage::Importing { secondary, .. } => Some(secondary),
            HandoffStage::Renavigating { secondary, .. } => Some(secondary),
            _ => None,
        }
    }

    /// Whether `event` reports an outcome that is awaited. The timeout may
    /// come at any step.
    pub open spec fn accepts(&self, event: HandoffEvent<E>) -> bool {
        match event {
            HandoffEvent::Extracted(_) => *self is Extracting,
            HandoffEvent::Created(_) => *self is Creating,
            HandoffEvent::Navigated(_) => *self is Bootstrapping || *self is Renavigating,
            HandoffEvent::Imported(_) => *self is Importing,
            HandoffEvent::TimedOut => !(*self is Finished),
        }
    }

    /// What the outcome of the awaited step leads to while the budget is not
    /// spent.
    ///
    /// A step that fails ends the handoff with the step, the cause and the
    /// secondary, if one was made. After the bootstrap navigation an empty
    /// envelope ends the handoff at once, with the bootstrap's metadata;
    /// otherwise the envelope is imported and the secondary navigates again,
    /// and the metadata of that navigation is the result.
    pub open spec fn leads_to(
        self,
        event: HandoffEvent<E>,
        next: HandoffStage<E>,
        action: HandoffAction<E>,
    ) -> bool {
        match (self, event) {
            (HandoffStage::Extracting, HandoffEvent::Extracted(Ok(envelope))) => {
                &&& next == (HandoffStage::<E>::Creating { envelope })
                &&& action == HandoffAction::<E>::CreateSecondary(EngineKind::Ladybird)
            },
            (HandoffStage::Creating { envelope }, HandoffEvent::Created(Ok(secondary))) => {
                &&& next == (HandoffStage::Bootstrapping { envelope, secondary })
                &&& action is Navigate
            },
            (
                HandoffStage::Bootstrapping { envelope, secondary },
                HandoffEvent::Navigated(Ok(meta)),
            ) => if envelope.is_empty() {
                &&& next is Finished
                &&& action == HandoffAction::Succeed(
                    HandoffResult {
                        secondary,
                        result_json: meta,
                        performed_final_navigate: false,
                        imported_entry_count: 0,
                    },
                )
            } else {
                &&& next == (HandoffStage::Importing {
                    secondary,
                    entry_count: envelope.entry_count(),
                })
                &&& action == HandoffAction::<E>::ImportState(envelope)
            },
            (HandoffStage::Importing { secondary, entry_count }, HandoffEvent::Imported(Ok(_))) => {
                &&& next == (HandoffStage::Renavigating { secondary, entry_count })
                &&& action is Navigate
            },
            (
                HandoffStage::Renavigating { secondary, entry_count },
                HandoffEvent::Navigated(Ok(meta)),
            ) => {
                &&& next is Finished
                &&& action == HandoffAction::Succeed(
                    HandoffResult {
                        secondary,
                        result_json: meta,
                        performed_final_navigate: true,
                        imported_entry_count: entry_count,
                    },
                )
            },
            (_, HandoffEvent::Extracted(Err(cause)))
            | (_, HandoffEvent::Created(Err(cause)))
            | (_, HandoffEvent::Navigated(Err(cause)))
            | (_, HandoffEvent::Imported(Err(cause))) => {
                &&& next is Finished
                &&& action == HandoffAction::Fail(
                    HandoffFailure { step: self.awaited().unwrap(), cause, abandoned: self.held() },
                )
            },
            _ => false,
        }
    }

    /// Gives up the handoff and hands out the secondary, if one was made.
    pub fn into_secondary(self) -> (r: Option<E>)
        ensures
            r == self.held(),
    {
        match self {
            HandoffStage::Bootstrapping { secondary, .. } => Some(secondary),
            HandoffStage::Importing { secondary, .. } => Some(secondary),
            HandoffStage::Renavigating { secondary, .. } => Some(secondary),
            _ => None,
        }
    }

    fn proceed(self, event: HandoffEvent<E>) -> (r: (HandoffStage<E>, HandoffAction<E>))
        requires
            self.accepts(event),
            !(event is TimedOut),
        ensures
            self.leads_to(event, r.0, r.1),
    {
        match (self, event) {
            (HandoffStage::Extracting, HandoffEvent::Extracted(Ok(envelope))) => (
                HandoffStage::Creating { envelope },
                HandoffAction::CreateSecondary(EngineKind::Ladybird),
            ),
            (HandoffStage::Extracting, HandoffEvent::Extracted(Err(cause))) => fail(
                HandoffStep::Extract,
                cause,
                None,
            ),
            (HandoffStage::Creating { envelope }, HandoffEvent::Created(Ok(secondary))) => (
                HandoffStage::Bootstrapping { envelope, secondary },
                HandoffAction::Navigate,
            ),
            (HandoffStage::Creating { .. }, HandoffEvent::Created(Err(cause))) => fail(
                HandoffStep::Create,
                cause,
                None,
            ),
            (
                HandoffStage::Bootstrapping { envelope, secondary },
                HandoffEvent::Navigated(Ok(meta)),
            ) => {
                if envelope.is_empty() {
                    (
                        HandoffStage::Finished,
                        HandoffAction::Succeed(
                            HandoffResult {
                                secondary,
                                result_json: meta,
                                performed_final_navigate: false,
                                imported_entry_count: 0,
                            },
                        ),
                    )
                } else {
                    let entry_count = envelope.entry_count();
                    (
                        HandoffStage::Importing { secondary, entry_count },
                        HandoffAction::ImportState(envelope),
                    )
                }
            },
            (
                HandoffStage::Bootstrapping { secondary, .. },
                HandoffEvent::Navigated(Err(cause)),
            ) => fail(HandoffStep::Bootstrap, cause, Some(secondary)),
            (HandoffStage::Importing { secondary, entry_count }, HandoffEvent::Imported(Ok(_))) => (
                HandoffStage::Renavigating { secondary, entry_count },
                HandoffAction::Navigate,
            ),
            (HandoffStage::Importing { secondary, .. }, HandoffEvent::Imported(Err(cause))) => fail(
                HandoffStep::Import,
                cause,
                Some(secondary),
            ),
            (
                HandoffStage::Renavigating { secondary, entry_count },
                HandoffEvent::Navigated(Ok(meta)),
            ) => (
                HandoffStage::Finished,
                HandoffAction::Succeed(
                    HandoffResult {
                        secondary,
                        result_json: meta,
                        performed_final_navigate: true,
                        imported_entry_count: entry_count,
                    },
                ),
            ),
            (
                HandoffStage::Renavigating { secondary, .. },
                HandoffEvent::Navigated(Err(cause)),
            ) => fail(HandoffStep::FinalNavigate, cause, Some(secondary)),
            _ => unreached(),
        }
    }
}

impl<E> HandoffEvent<E> {
    /// The secondary that the event brings, if it reports that one was made.
    pub open spec fn brought(&self) -> Option<E> {
        match *self {
            HandoffEvent::Created(Ok(secondary)) => Some(secondary),
            _ => None,
        }
    }
}

impl<E> Handoff<E> {
    /// Whether the budget is spent at `now_ms`.
    pub open spec fn spec_out_of_time(&self, now_ms: u64) -> bool {
        now_ms >= self.deadline_ms
    }

    /// Whether `event` counts as a timeout at `now_ms`: it reports one, or
    /// it comes when the budget is spent.
    pub open spec fn times_out(&self, event: HandoffEvent<E>, now_ms: u64) -> bool {
        event is TimedOut || self.spec_out_of_time(now_ms)
    }

    /// The secondary that is given up when the handoff ends on `event`
    /// without success: the one that the event brings, or the one held.
    pub open spec fn given_up(&self, event: HandoffEvent<E>) -> Option<E> {
        match event.brought() {
            Some(secondary) => Some(secondary),
            None => self.stage.held(),
        }
    }

    /// What an outcome that comes at `now_ms` leads to. A timeout, and any
    /// outcome that comes when the budget is spent, ends the handoff as timed
    /// out; the secondary that was made, or that the outcome brings, is
    /// handed back. Before that the outcome leads to the next step, to
    /// success or to failure as [`HandoffStage::leads_to`] says.
    pub open spec fn advances_to(
        &self,
        event: HandoffEvent<E>,
        now_ms: u64,
        next: Handoff<E>,
        action: HandoffAction<E>,
    ) -> bool {
        &&& next.deadline_ms == self.deadline_ms
        &&& if self.times_out(event, now_ms) {
            &&& next.stage is Finished
            &&& action matches HandoffAction::Fail(failure)
            &&& failure.step == HandoffStep::Timeout
            &&& failure.cause@ == Seq::<char>::empty()
            &&& failure.abandoned == self.given_up(event)
        } else {
            self.stage.leads_to(event, next.stage, action)
        }
    }

    /// Begins a handoff at `now_ms`: the first step is to extract the
    /// primary's state, and the budget is spent once the time allowed for a
    /// handoff has passed.
    pub fn start(now_ms: u64) -> (r: (Self, HandoffAction<E>))
        ensures
            r.0.stage is Extracting,
            r.0.deadline_ms == deadline_from(now_ms),
            r.1 is ExtractState,
    {
        (
            Handoff {
                deadline_ms: now_ms.saturating_add(ESCALATION_TIMEOUT_MS),
                stage: HandoffStage::Extracting,
            },
            HandoffAction::ExtractState,
        )
    }

    /// Whether the budget is spent at `now_ms`.
    #[verifier::when_used_as_spec(spec_out_of_time)]
    pub fn out_of_time(&self, now_ms: u64) -> (r: bool)
        ensures
            r == self.spec_out_of_time(now_ms),
    {
        now_ms >= self.deadline_ms
    }

    /// The time that is left of the budget at `now_ms`, in milliseconds.
    pub fn time_left_ms(&self, now_ms: u64) -> (r: u64)
        ensures
            r == if now_ms >= self.deadline_ms {
                0
            } else {
                self.deadline_ms - now_ms
            },
    {
        if now_ms >= self.deadline_ms {
            0
        } else {
            self.deadline_ms - now_ms
        }
    }

    /// Whether `event` reports an outcome that the handoff awaits.
    pub fn awaits(&self, event: &HandoffEvent<E>) -> (r: bool)
        ensures
            r == self.stage.accepts(*event),
    {
        match event {
            HandoffEvent::Extracted(_) => matches!(self.stage, HandoffStage::Extracting),
            HandoffEvent::Created(_) => matches!(self.stage, HandoffStage::Creating { .. }),
            HandoffEvent::Navigated(_) => matches!(
                self.stage,
                HandoffStage::Bootstrapping { .. } | HandoffStage::Renavigating { .. }
            ),
            HandoffEvent::Imported(_) => matches!(self.stage, HandoffStage::Importing { .. }),
            HandoffEvent::TimedOut => !matches!(self.stage, HandoffStage::Finished),
        }
    }

    /// The secondary that the handoff holds, to run the step asked for.
    pub fn secondary(&self) -> (r: Option<&E>)
        ensures
            match r {
                Some(engine) => self.stage.held() == Some(*engine),
                None => self.stage.held() is None,
            },
    {
        match &self.stage {
            HandoffStage::Bootstrapping { secondary, .. } => Some(secondary),
            HandoffStage::Importing { secondary, .. } => Some(secondary),
            HandoffStage::Renavigating { secondary, .. } => Some(secondary),
            _ => None,
        }
    }

    /// Takes the outcome of the awaited step at the time `now_ms` and
    /// decides what comes next, as [`Handoff::advances_to`] says. A handoff
    /// never succeeds once its budget is spent.
    pub fn advance(self, event: HandoffEvent<E>, now_ms: u64) -> (r: (Self, HandoffAction<E>))
        requires
            self.stage.accepts(event),
        ensures
            self.advances_to(event, now_ms, r.0, r.1),
            r.1 is Succeed ==> now_ms < self.deadline_ms,
    {
        let deadline_ms = self.deadline_ms;
        let timed_out = match event {
            HandoffEvent::TimedOut => true,
            _ => now_ms >= deadline_ms,
        };
        if timed_out {
            let abandoned = match event {
                HandoffEvent::Created(Ok(secondary)) => Some(secondary),
                _ => self.stage.into_secondary(),
            };
            (
                Handoff { deadline_ms, stage: HandoffStage::Finished },
                HandoffAction::Fail(
                    HandoffFailure { step: HandoffStep::Timeout, cause: String::new(), abandoned },
                ),
            )
        } else {
            let (stage, action) = self.stage.proceed(event);
            (Handoff { deadline_ms, stage }, action)
        }
    }

    /// Takes an outcome if the handoff awaits it, as [`Handoff::advance`]
    /// does, and hands the handoff and the outcome back if it does not.
    pub fn try_advance(self, event: HandoffEvent<E>, now_ms: u64) -> (r: Result<
        (Self, HandoffAction<E>),
        (Self, HandoffEvent<E>),
    >)
        ensures
            match r {
                Ok(next) => self.stage.accepts(event) && self.advances_to(
                    event,
                    now_ms,
                    next.0,
                    next.1,
                ),
                Err(refused) => !self.stage.accepts(event) && refused.0 == self && refused.1
                    == event,
            },
    {
        if self.awaits(&event) {
            Ok(self.advance(event, now_ms))
        } else {
            Err((self, event))
        }
    }

    /// Gives up the handoff and hands out the secondary, if one was made.
    pub fn into_secondary(self) -> (r: Option<E>)
        ensures
            r == self.stage.held(),
    {
        self.stage.into_secondary()
    }
}

/// A handoff ends, with success or failure, after five steps at most; it
/// never goes on once a step has failed or the time is out. Each step that
/// does not end it leads to the step that follows in the order of extract,
/// create, bootstrap, import and final navigation.
pub proof fn lemma_steps_follow_in_order<E>(
    stage: HandoffStage<E>,
    event: HandoffEvent<E>,
    next: HandoffStage<E>,
    action: HandoffAction<E>,
)
    requires
        stage.accepts(event),
        stage.leads_to(event, next, action),
    ensures
        next.awaited() == match (stage.awaited(), action) {
            (_, HandoffAction::Succeed(_)) => None,
            (_, HandoffAction::Fail(_)) => None,
            (Some(HandoffStep::Extract), _) => Some(HandoffStep::Create),
            (Some(HandoffStep::Create), _) => Some(HandoffStep::Bootstrap),
            (Some(HandoffStep::Bootstrap), _) => Some(HandoffStep::Import),
            (Some(HandoffStep::Import), _) => Some(HandoffStep::FinalNavigate),
            _ => None,
        },
        action is Succeed ==> stage.awaited() == Some(HandoffStep::Bootstrap) || stage.awaited()
            == Some(HandoffStep::FinalNavigate),
        action matches HandoffAction::Fail(failure) ==> failure.abandoned == stage.held(),
        !(action is Succeed) && !(action is Fail) ==> next.held() == (match event.brought() {
            Some(secondary) => Some(secondary),
            None => stage.held(),
        }),
{
}

/// The engine, if there is one.
pub open spec fn one_or_none<E>(engine: Option<E>) -> Multiset<E> {
    match engine {
        Some(held) => Multiset::singleton(held),
        None => Multiset::empty(),
    }
}

/// The engines that a handoff has in hand when it has taken an outcome: the
/// secondary that a stage holds, or the one that the action hands over.
pub open spec fn engines_in_hand<E>(stage: HandoffStage<E>, action: HandoffAction<E>) -> Multiset<
    E,
> {
    match action {
        HandoffAction::Succeed(result) => Multiset::singleton(result.secondary),
        HandoffAction::Fail(failure) => one_or_none(failure.abandoned),
        _ => one_or_none(stage.held()),
    }
}

/// A handoff drops no secondary: the one that it held, or that the outcome
/// brought, is held on, handed over with the success, or handed back with
/// the failure.
pub proof fn lemma_handoff_drops_no_secondary<E>(
    handoff: Handoff<E>,
    event: HandoffEvent<E>,
    now_ms: u64,
    next: Handoff<E>,
    action: HandoffAction<E>,
)
    requires
        handoff.stage.accepts(event),
        handoff.advances_to(event, now_ms, next, action),
    ensures
        engines_in_hand(next.stage, action) =~= one_or_none(handoff.stage.held()).add(
            one_or_none(event.brought()),
        ),
{
}

fn fail<E>(step: HandoffStep, cause: String, abandoned: Option<E>) -> (r: (
    HandoffStage<E>,
    HandoffAction<E>,
))
    ensures
        r.0 is Finished,
        r.1 == HandoffAction::Fail(HandoffFailure { step, cause, abandoned }),
{
    (HandoffStage::Finished, HandoffAction::Fail(HandoffFailure { step, cause, abandoned }))
}

} // verus!
