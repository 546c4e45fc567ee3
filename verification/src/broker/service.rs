//! The service loop: one request at a time against the active engine.
//!
//! The engines' work and the queue are outside; what to do with each request
//! and with each outcome is decided here. Whoever runs the loop reports an
//! [`Event`] to [`Service::step`] and gets a [`Step`]: the reply to send, if
//! one is due, an engine to close, if one was given up, and the [`Directive`]
//! to carry out next, whose outcome is the next event.

use vstd::pervasive::unreached;
use vstd::prelude::*;

use super::confidence::scorer::{decision_of, ConfidenceScorer, EngineDecision};
use super::handoff::{HandoffFailure, HandoffResult};
use super::metadata::{signals_from_navigate_meta, signals_of, stamp_migrated, stamped};
use super::state::{backoff_end, budget_exhausted, next_up, BrokerState, EngineRole};

verus! {

/// A request to the broker.
pub enum BrokerRequest {
    CreatePage,
    Navigate { page_id: u32, url: String, opts_json: String },
    Evaluate { page_id: u32, script: String },
    Screenshot { page_id: u32 },
    CloseBrowser,
    Shutdown,
}

/// The reply to a request. `X` is the engines' error.
pub enum Reply<X> {
    /// To `CreatePage`: the new page's id.
    PageId(u32),
    /// To `Navigate` and `Evaluate`.
    Text(Result<String, X>),
    /// To `Screenshot`.
    Bytes(Result<Vec<u8>, X>),
    /// To `CloseBrowser` and `Shutdown`.
    Done(Result<(), X>),
}

/// What the loop is waiting for.
pub enum Phase {
    /// The next request.
    Idle,
    /// The active engine's navigation to `url`.
    Navigating { url: String, opts_json: String },
    /// The active engine's evaluation of a script.
    Evaluating,
    /// The active engine's screenshot.
    Screenshotting,
    /// A handoff; `primary_meta` is the reply if it fails.
    HandingOff { primary_meta: String },
    /// The close of the active engine that a request asked for.
    Closing { shutdown: bool },
    /// The close of the active engine after the loop was left.
    Draining,
    /// Nothing: the loop has ended.
    Stopped,
}

/// What whoever runs the loop does next.
pub enum Directive {
    /// Take the next request from the queue.
    AwaitRequest,
    /// Navigate the active engine.
    Navigate { url: String, opts_json: String },
    /// Evaluate the script on the active engine.
    Evaluate { script: String },
    /// Take a screenshot with the active engine.
    Screenshot,
    /// Close the active engine.
    CloseActive,
    /// Run a handoff from the active engine, within the time allowed.
    Handoff { url: String, opts_json: String },
    /// Leave the loop.
    Stop,
}

/// What happened outside.
pub enum Event<E, X> {
    /// A request arrived.
    Request(BrokerRequest),
    /// The queue was closed: no request will arrive.
    QueueClosed,
    /// The navigation ended.
    Navigated(Result<String, X>),
    /// The evaluation ended.
    Evaluated(Result<String, X>),
    /// The screenshot ended.
    Screenshot(Result<Vec<u8>, X>),
    /// The close of the active engine ended.
    Closed(Result<(), X>),
    /// The handoff ended.
    HandoffDone(Result<HandoffResult<E>, HandoffFailure<E>>),
}

/// What a step of the loop asks of whoever runs it.
pub struct Step<E, X> {
    /// The reply to the request in hand, if it is due now.
    pub reply: Option<Reply<X>>,
    /// An engine that the broker gave up: close it, and let a failure pass.
    pub close: Option<E>,
    /// What to do next.
    pub next: Directive,
}

/// The broker's state with the scorer and the phase of the loop.
pub struct Service<E> {
    pub state: BrokerState<E>,
    pub scorer: ConfidenceScorer,
    pub phase: Phase,
}

/// One for `true`, nothing for `false`.
pub open spec fn count(b: bool) -> nat {
    if b {
        1
    } else {
        0
    }
}

/// Whether the outcome of an operation makes the broker go back to the
/// primary: the operation failed, the failure exhausts the budget, and the
/// active engine is a secondary with a primary standing by.
pub open spec fn rolls_back<E>(state: BrokerState<E>, succeeded: bool) -> bool {
    &&& !succeeded
    &&& budget_exhausted(next_up(state.consecutive_failures))
    &&& state.active_role == EngineRole::SecondaryProxy
    &&& state.standby_primary is Some
}

/// The broker's state once the outcome of an operation is taken in.
pub open spec fn state_after_health<E>(
    state: BrokerState<E>,
    succeeded: bool,
    now_ms: u64,
) -> BrokerState<E> {
    if succeeded {
        BrokerState { consecutive_failures: 0, ..state }
    } else if rolls_back(state, succeeded) {
        BrokerState {
            active_engine: state.standby_primary.unwrap(),
            active_role: EngineRole::Primary,
            standby_primary: None,
            consecutive_failures: 0,
            escalation_backoff_until: Some(backoff_end(now_ms)),
            engine_closed: false,
            ..state
        }
    } else {
        BrokerState { consecutive_failures: next_up(state.consecutive_failures), ..state }
    }
}

/// The secondary that the broker gives up when the outcome of an operation
/// makes it go back to the primary.
pub open spec fn degraded_after_health<E>(state: BrokerState<E>, succeeded: bool) -> Option<E> {
    if rolls_back(state, succeeded) {
        Some(state.active_engine)
    } else {
        None
    }
}

/// The broker's state once it has adopted `secondary`.
pub open spec fn state_after_adoption<E>(state: BrokerState<E>, secondary: E) -> BrokerState<E> {
    BrokerState {
        active_engine: secondary,
        active_role: EngineRole::SecondaryProxy,
        standby_primary: Some(state.active_engine),
        consecutive_failures: 0,
        engine_closed: false,
        ..state
    }
}

/// The metadata of a navigation as the client gets it: stamped as migrated
/// where a secondary served it.
pub open spec fn served_meta(role: EngineRole, meta: Seq<char>) -> Seq<char> {
    if role == EngineRole::SecondaryProxy {
        stamped(meta, true)
    } else {
        meta
    }
}

/// Whether a navigation that was served with `meta` is followed by a
/// handoff: the scorer decides to escalate, and nothing holds the
/// escalation back.
pub open spec fn wants_handoff<E>(
    state: BrokerState<E>,
    threshold: u32,
    meta: Seq<char>,
    now_ms: u64,
    sampled_at_ms: u64,
) -> bool {
    &&& decision_of(signals_of(meta, sampled_at_ms), threshold) is EscalateToLadybird
    &&& state.skip_reason(now_ms) is None
}

/// Takes in the outcome of an operation of the active engine. A success
/// clears the failure count. A failure raises it; where that exhausts the
/// budget of a secondary, the broker goes back to the primary that stands by
/// and hands out the secondary for closing.
pub fn handle_operation_health<E>(state: &mut BrokerState<E>, succeeded: bool, now_ms: u64) -> (degraded:
    Option<E>)
    ensures
        *final(state) == state_after_health(*old(state), succeeded, now_ms),
        degraded == degraded_after_health(*old(state), succeeded),
        old(state).wf() ==> final(state).wf(),
{
    if succeeded {
        state.record_success();
        None
    } else {
        let exhausted = state.record_failure();
        if exhausted && state.active_role == EngineRole::SecondaryProxy {
            state.apply_rollback(now_ms)
        } else {
            None
        }
    }
}

impl Phase {
    /// Whether a request is in hand: one that was taken from the queue and
    /// has not been replied to.
    pub open spec fn owes_reply(&self) -> bool {
        *self is Navigating || *self is Evaluating || *self is Screenshotting || *self is HandingOff
            || *self is Closing
    }

    /// Whether `event` is what the loop is waiting for.
    pub open spec fn accepts<E, X>(&self, event: Event<E, X>) -> bool {
        match event {
            Event::Request(_) => *self is Idle,
            Event::QueueClosed => *self is Idle,
            Event::Navigated(_) => *self is Navigating,
            Event::Evaluated(_) => *self is Evaluating,
            Event::Screenshot(_) => *self is Screenshotting,
            Event::Closed(_) => *self is Closing || *self is Draining,
            Event::HandoffDone(_) => *self is HandingOff,
        }
    }
}

impl Directive {
    /// The phase in which the loop waits for the command's outcome.
    pub open spec fn awaited_in(&self, phase: Phase) -> bool {
        match *self {
            Directive::AwaitRequest => phase is Idle,
            Directive::Navigate { url, opts_json } => phase == (Phase::Navigating { url, opts_json }),
            Directive::Evaluate { .. } => phase is Evaluating,
            Directive::Screenshot => phase is Screenshotting,
            Directive::CloseActive => phase is Closing || phase is Draining,
            Directive::Handoff { .. } => phase is HandingOff,
            Directive::Stop => phase is Stopped,
        }
    }
}

impl<E> Service<E> {
    /// Whether the service is well formed: a handoff runs only from a
    /// primary with no engine standing by.
    pub open spec fn wf(&self) -> bool {
        self.phase is HandingOff ==> self.state.active_role == EngineRole::Primary
            && self.state.standby_primary is None
    }

    /// Whether the active engine is within its budget: a secondary with a
    /// primary standing by has not failed as often in a row as the budget
    /// allows. A secondary that exhausts its budget is given up in the step
    /// that takes the failure in, so that no request is served by it.
    pub open spec fn within_budget(&self) -> bool {
        self.state.active_role == EngineRole::SecondaryProxy && self.state.standby_primary is Some
            ==> !budget_exhausted(self.state.consecutive_failures)
    }

    /// What a request does to an idle loop. A page is created at once; every
    /// other request sets the active engine to work.
    pub open spec fn request_step<X>(
        before: Self,
        request: BrokerRequest,
        after: Self,
        out: Step<E, X>,
    ) -> bool {
        &&& out.close is None
        &&& after.scorer == before.scorer
        &&& match request {
            BrokerRequest::CreatePage => {
                &&& out.reply == Some(Reply::<X>::PageId(before.state.next_page_id))
                &&& after.state == (BrokerState {
                    next_page_id: next_up(before.state.next_page_id),
                    ..before.state
                })
                &&& after.phase is Idle
                &&& out.next is AwaitRequest
            },
            BrokerRequest::Navigate { url, opts_json, .. } => {
                &&& out.reply is None
                &&& after.state == before.state
                &&& after.phase == (Phase::Navigating { url, opts_json })
                &&& out.next == (Directive::Navigate { url, opts_json })
            },
            BrokerRequest::Evaluate { script, .. } => {
                &&& out.reply is None
                &&& after.state == before.state
                &&& after.phase is Evaluating
                &&& out.next == (Directive::Evaluate { script })
            },
            BrokerRequest::Screenshot { .. } => {
                &&& out.reply is None
                &&& after.state == before.state
                &&& after.phase is Screenshotting
                &&& out.next is Screenshot
            },
            BrokerRequest::CloseBrowser => {
                &&& out.reply is None
                &&& after.state == before.state
                &&& after.phase == (Phase::Closing { shutdown: false })
                &&& out.next is CloseActive
            },
            BrokerRequest::Shutdown => {
                &&& out.reply is None
                &&& after.state == before.state
                &&& after.phase == (Phase::Closing { shutdown: true })
                &&& out.next is CloseActive
            },
        }
    }

    /// What the outcome of a navigation does. A failure is the reply. A
    /// success is scored: where the scorer escalates and nothing holds the
    /// escalation back, a handoff begins and the reply waits for it;
    /// otherwise the metadata is the reply.
    pub open spec fn navigated_step<X>(
        before: Self,
        result: Result<String, X>,
        now_ms: u64,
        sampled_at_ms: u64,
        after: Self,
        out: Step<E, X>,
    ) -> bool {
        let state = state_after_health(before.state, result is Ok, now_ms);
        &&& after.state == state
        &&& after.scorer == before.scorer
        &&& out.close == degraded_after_health(before.state, result is Ok)
        &&& match result {
            Err(error) => {
                &&& out.reply == Some(Reply::Text(Err(error)))
                &&& after.phase is Idle
                &&& out.next is AwaitRequest
            },
            Ok(meta) => {
                let served = served_meta(state.active_role, meta@);
                if wants_handoff(
                    state,
                    before.scorer.escalation_threshold,
                    served,
                    now_ms,
                    sampled_at_ms,
                ) {
                    &&& out.reply is None
                    &&& after.phase matches Phase::HandingOff { primary_meta }
                    &&& primary_meta@ == served
                    &&& before.phase matches Phase::Navigating { url, opts_json }
                    &&& out.next == (Directive::Handoff { url, opts_json })
                } else {
                    &&& out.reply matches Some(Reply::Text(Ok(text)))
                    &&& text@ == served
                    &&& after.phase is Idle
                    &&& out.next is AwaitRequest
                }
            },
        }
    }

    /// What the outcome of an evaluation or a screenshot does: it is taken
    /// in, and it is the reply.
    pub open spec fn operated_step<X>(
        before: Self,
        succeeded: bool,
        reply: Reply<X>,
        now_ms: u64,
        after: Self,
        out: Step<E, X>,
    ) -> bool {
        &&& after.state == state_after_health(before.state, succeeded, now_ms)
        &&& after.scorer == before.scorer
        &&& out.close == degraded_after_health(before.state, succeeded)
        &&& out.reply == Some(reply)
        &&& after.phase is Idle
        &&& out.next is AwaitRequest
    }

    /// What the end of a handoff does. After a success the secondary is
    /// adopted and its metadata, stamped as migrated, is the reply. After a
    /// failure the state is as it was, the primary's metadata is the reply,
    /// and the secondary that the handoff left behind is handed out for
    /// closing.
    pub open spec fn handoff_done_step<X>(
        before: Self,
        outcome: Result<HandoffResult<E>, HandoffFailure<E>>,
        after: Self,
        out: Step<E, X>,
    ) -> bool {
        &&& after.scorer == before.scorer
        &&& after.phase is Idle
        &&& out.next is AwaitRequest
        &&& match outcome {
            Ok(handoff) => {
                &&& after.state == state_after_adoption(before.state, handoff.secondary)
                &&& out.reply matches Some(Reply::Text(Ok(text)))
                &&& text@ == stamped(handoff.result_json@, true)
                &&& out.close is None
            },
            Err(failure) => {
                &&& after.state == before.state
                &&& before.phase matches Phase::HandingOff { primary_meta }
                &&& out.reply == Some(Reply::<X>::Text(Ok(primary_meta)))
                &&& out.close == failure.abandoned
            },
        }
    }

    /// What the end of a close of the active engine does. The engine counts
    /// as closed if the close succeeded, the engine that stands by is handed
    /// out for closing, and the request that asked for the close is replied
    /// to. After a shutdown, and after the loop was left, the loop ends, but
    /// not before a close of the active engine has been tried once more where
    /// it has never succeeded.
    pub open spec fn closed_step<X>(
        before: Self,
        result: Result<(), X>,
        after: Self,
        out: Step<E, X>,
    ) -> bool {
        let closed = before.state.engine_closed || result is Ok;
        &&& after.scorer == before.scorer
        &&& out.close == before.state.standby_primary
        &&& match before.phase {
            Phase::Closing { shutdown } => {
                &&& after.state == (BrokerState {
                    standby_primary: None,
                    engine_closed: closed,
                    ..before.state
                })
                &&& out.reply == Some(Reply::Done(result))
                &&& if !shutdown {
                    after.phase is Idle && out.next is AwaitRequest
                } else if closed {
                    after.phase is Stopped && out.next is Stop
                } else {
                    after.phase is Draining && out.next is CloseActive
                }
            },
            _ => {
                &&& after.state == (BrokerState { standby_primary: None, ..before.state })
                &&& out.reply is None
                &&& after.phase is Stopped
                &&& out.next is Stop
            },
        }
    }

    /// What the closing of the queue does to an idle loop: the engine that
    /// stands by is handed out for closing, and the loop ends once the
    /// active engine is closed.
    pub open spec fn queue_closed_step<X>(before: Self, after: Self, out: Step<E, X>) -> bool {
        &&& after.scorer == before.scorer
        &&& after.state == (BrokerState { standby_primary: None, ..before.state })
        &&& out.close == before.state.standby_primary
        &&& out.reply is None
        &&& if before.state.engine_closed {
            after.phase is Stopped && out.next is Stop
        } else {
            after.phase is Draining && out.next is CloseActive
        }
    }

    /// What an event does to the loop.
    pub open spec fn step_outcome<X>(
        before: Self,
        event: Event<E, X>,
        now_ms: u64,
        sampled_at_ms: u64,
        after: Self,
        out: Step<E, X>,
    ) -> bool {
        match event {
            Event::Request(request) => Self::request_step(before, request, after, out),
            Event::QueueClosed => Self::queue_closed_step(before, after, out),
            Event::Navigated(result) => Self::navigated_step(
                before,
                result,
                now_ms,
                sampled_at_ms,
                after,
                out,
            ),
            Event::Evaluated(result) => Self::operated_step(
                before,
                result is Ok,
                Reply::Text(result),
                now_ms,
                after,
                out,
            ),
            Event::Screenshot(result) => Self::operated_step(
                before,
                result is Ok,
                Reply::Bytes(result),
                now_ms,
                after,
                out,
            ),
            Event::Closed(result) => Self::closed_step(before, result, after, out),
            Event::HandoffDone(outcome) => Self::handoff_done_step(before, outcome, after, out),
        }
    }

    /// The service of a broker that starts with `engine` as its primary and
    /// scores with `scorer`. It waits for the first request.
    pub fn new(engine: E, scorer: ConfidenceScorer) -> (r: Self)
        ensures
            r.state.active_engine == engine,
            r.state.active_role == EngineRole::Primary,
            r.state.standby_primary is None,
            r.state.consecutive_failures == 0,
            r.state.escalation_backoff_until is None,
            r.state.next_page_id == 1,
            !r.state.engine_closed,
            r.scorer == scorer,
            r.phase is Idle,
            r.wf(),
            r.state.wf(),
            r.within_budget(),
    {
        Service { state: BrokerState::new(engine), scorer, phase: Phase::Idle }
    }

    /// Whether the service can take `event`: it is well formed, and the event
    /// is what the loop is waiting for.
    pub fn is_ready_for<X>(&self, event: &Event<E, X>) -> (r: bool)
        ensures
            r == (self.wf() && self.phase.accepts(*event)),
    {
        let well_formed = match self.phase {
            Phase::HandingOff { .. } => self.state.active_role == EngineRole::Primary
                && self.state.standby_primary.is_none(),
            _ => true,
        };
        let awaited = match event {
            Event::Request(_) => matches!(self.phase, Phase::Idle),
            Event::QueueClosed => matches!(self.phase, Phase::Idle),
            Event::Navigated(_) => matches!(self.phase, Phase::Navigating { .. }),
            Event::Evaluated(_) => matches!(self.phase, Phase::Evaluating),
            Event::Screenshot(_) => matches!(self.phase, Phase::Screenshotting),
            Event::Closed(_) => matches!(self.phase, Phase::Closing { .. } | Phase::Draining),
            Event::HandoffDone(_) => matches!(self.phase, Phase::HandingOff { .. }),
        };
        well_formed && awaited
    }

    /// Takes an event at the time `now_ms` of the monotonic clock and the
    /// time `sampled_at_ms` of the wall clock, and decides what comes next.
    ///
    /// Every request is replied to once: a step replies only to a request
    /// in hand, and the loop takes no request while one is in hand.
    pub fn step<X>(&mut self, event: Event<E, X>, now_ms: u64, sampled_at_ms: u64) -> (out: Step<
        E,
        X,
    >)
        requires
            old(self).wf(),
            old(self).phase.accepts(event),
        ensures
            Self::step_outcome(*old(self), event, now_ms, sampled_at_ms, *final(self), out),
            final(self).wf(),
            out.next.awaited_in(final(self).phase),
            count(old(self).phase.owes_reply()) + count(event is Request) == count(
                out.reply is Some,
            ) + count(final(self).phase.owes_reply()),
            !(event is Closed) && !(event is QueueClosed) && old(self).state.wf()
                ==> final(self).state.wf(),
            old(self).within_budget() ==> final(self).within_budget(),
            final(self).state.next_page_id >= old(self).state.next_page_id,
    {
        let mut phase = Phase::Idle;
        core::mem::swap(&mut self.phase, &mut phase);
        match event {
            Event::Request(request) => self.on_request(request),
            Event::QueueClosed => self.on_queue_closed(),
            Event::Navigated(result) => match phase {
                Phase::Navigating { url, opts_json } => self.on_navigated(
                    url,
                    opts_json,
                    result,
                    now_ms,
                    sampled_at_ms,
                ),
                _ => unreached(),
            },
            Event::Evaluated(result) => {
                let close = handle_operation_health(&mut self.state, result.is_ok(), now_ms);
                Step { reply: Some(Reply::Text(result)), close, next: Directive::AwaitRequest }
            },
            Event::Screenshot(result) => {
                let close = handle_operation_health(&mut self.state, result.is_ok(), now_ms);
                Step { reply: Some(Reply::Bytes(result)), close, next: Directive::AwaitRequest }
            },
            Event::Closed(result) => {
                let shutdown = match phase {
                    Phase::Closing { shutdown } => Some(shutdown),
                    _ => None,
                };
                self.on_closed(shutdown, result)
            },
            Event::HandoffDone(outcome) => match phase {
                Phase::HandingOff { primary_meta } => self.on_handoff_done(primary_meta, outcome),
                _ => unreached(),
            },
        }
    }

    /// Takes an event if the service is ready for it, as [`Service::step`]
    /// does, and hands the event back, with nothing changed, if it is not.
    pub fn try_step<X>(&mut self, event: Event<E, X>, now_ms: u64, sampled_at_ms: u64) -> (r:
        Result<Step<E, X>, Event<E, X>>)
        ensures
            match r {
                Ok(out) => {
                    &&& old(self).wf()
                    &&& old(self).phase.accepts(event)
                    &&& Self::step_outcome(
                        *old(self),
                        event,
                        now_ms,
                        sampled_at_ms,
                        *final(self),
                        out,
                    )
                    &&& final(self).wf()
                    &&& out.next.awaited_in(final(self).phase)
                },
                Err(refused) => {
                    &&& !(old(self).wf() && old(self).phase.accepts(event))
                    &&& refused == event
                    &&& *final(self) == *old(self)
                },
            },
    {
        if self.is_ready_for(&event) {
            Ok(self.step(event, now_ms, sampled_at_ms))
        } else {
            Err(event)
        }
    }

    fn on_request<X>(&mut self, request: BrokerRequest) -> (out: Step<E, X>)
        requires
            old(self).phase is Idle,
        ensures
            Self::request_step(*old(self), request, *final(self), out),
    {
        match request {
            BrokerRequest::CreatePage => {
                let page_id = self.state.allocate_page_id();
                Step { reply: Some(Reply::PageId(page_id)), close: None, next: Directive::AwaitRequest }
            },
            BrokerRequest::Navigate { page_id: _, url, opts_json } => {
                self.phase = Phase::Navigating { url: url.clone(), opts_json: opts_json.clone() };
                Step { reply: None, close: None, next: Directive::Navigate { url, opts_json } }
            },
            BrokerRequest::Evaluate { page_id: _, script } => {
                self.phase = Phase::Evaluating;
                Step { reply: None, close: None, next: Directive::Evaluate { script } }
            },
            BrokerRequest::Screenshot { page_id: _ } => {
                self.phase = Phase::Screenshotting;
                Step { reply: None, close: None, next: Directive::Screenshot }
            },
            BrokerRequest::CloseBrowser => {
                self.phase = Phase::Closing { shutdown: false };
                Step { reply: None, close: None, next: Directive::CloseActive }
            },
            BrokerRequest::Shutdown => {
                self.phase = Phase::Closing { shutdown: true };
                Step { reply: None, close: None, next: Directive::CloseActive }
            },
        }
    }

    fn on_navigated<X>(
        &mut self,
        url: String,
        opts_json: String,
        result: Result<String, X>,
        now_ms: u64,
        sampled_at_ms: u64,
    ) -> (out: Step<E, X>)
        requires
            old(self).phase is Idle,
        ensures
            Self::navigated_step(
                Service { phase: Phase::Navigating { url, opts_json }, ..*old(self) },
                result,
                now_ms,
                sampled_at_ms,
                *final(self),
                out,
            ),
            final(self).wf(),
    {
        let close = handle_operation_health(&mut self.state, result.is_ok(), now_ms);
        match result {
            Err(error) => Step {
                reply: Some(Reply::Text(Err(error))),
                close,
                next: Directive::AwaitRequest,
            },
            Ok(meta) => {
                // A secondary's metadata is stamped before it is scored.
                let served = if self.state.active_role == EngineRole::SecondaryProxy {
                    stamp_migrated(meta.as_str(), true)
                } else {
                    meta
                };
                let signals = signals_from_navigate_meta(served.as_str(), sampled_at_ms);
                let report = self.scorer.score(&signals);
                let escalates = match report.decision {
                    EngineDecision::EscalateToLadybird(_) => true,
                    _ => false,
                };
                if escalates && self.state.escalation_skip_reason(now_ms).is_none() {
                    self.phase = Phase::HandingOff { primary_meta: served };
                    Step { reply: None, close, next: Directive::Handoff { url, opts_json } }
                } else {
                    Step {
                        reply: Some(Reply::Text(Ok(served))),
                        close,
                        next: Directive::AwaitRequest,
                    }
                }
            },
        }
    }

    fn on_handoff_done<X>(
        &mut self,
        primary_meta: String,
        outcome: Result<HandoffResult<E>, HandoffFailure<E>>,
    ) -> (out: Step<E, X>)
        requires
            old(self).phase is Idle,
            old(self).state.active_role == EngineRole::Primary,
            old(self).state.standby_primary is None,
        ensures
            Self::handoff_done_step(
                Service { phase: Phase::HandingOff { primary_meta }, ..*old(self) },
                outcome,
                *final(self),
                out,
            ),
    {
        match outcome {
            Ok(handoff) => {
                let text = stamp_migrated(handoff.result_json.as_str(), true);
                self.state.apply_escalation(handoff.secondary);
                Step { reply: Some(Reply::Text(Ok(text))), close: None, next: Directive::AwaitRequest }
            },
            Err(failure) => Step {
                reply: Some(Reply::Text(Ok(primary_meta))),
                close: failure.abandoned,
                next: Directive::AwaitRequest,
            },
        }
    }

    fn on_closed<X>(&mut self, shutdown: Option<bool>, result: Result<(), X>) -> (out: Step<E, X>)
        requires
            old(self).phase is Idle,
        ensures
            Self::closed_step(
                Service {
                    phase: match shutdown {
                        Some(shutdown) => Phase::Closing { shutdown },
                        None => Phase::Draining,
                    },
                    ..*old(self)
                },
                result,
                *final(self),
                out,
            ),
    {
        let close = self.state.standby_primary.take();
        match shutdown {
            Some(shutdown) => {
                if result.is_ok() {
                    self.state.engine_closed = true;
                }
                let reply = Some(Reply::Done(result));
                if !shutdown {
                    Step { reply, close, next: Directive::AwaitRequest }
                } else if self.state.engine_closed {
                    self.phase = Phase::Stopped;
                    Step { reply, close, next: Directive::Stop }
                } else {
                    self.phase = Phase::Draining;
                    Step { reply, close, next: Directive::CloseActive }
                }
            },
            None => {
                self.phase = Phase::Stopped;
                Step { reply: None, close, next: Directive::Stop }
            },
        }
    }

    fn on_queue_closed<X>(&mut self) -> (out: Step<E, X>)
        requires
            old(self).phase is Idle,
        ensures
            Self::queue_closed_step(*old(self), *final(self), out),
    {
        let close = self.state.standby_primary.take();
        if self.state.engine_closed {
            self.phase = Phase::Stopped;
            Step { reply: None, close, next: Directive::Stop }
        } else {
            self.phase = Phase::Draining;
            Step { reply: None, close, next: Directive::CloseActive }
        }
    }
}

} // verus!
