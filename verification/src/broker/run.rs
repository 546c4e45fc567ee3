//! Runs of the service loop: what holds of every sequence of its steps.

use vstd::multiset::Multiset;
use vstd::prelude::*;

use super::handoff::{one_or_none, HandoffFailure, HandoffResult};
use super::metadata::{lemma_stamped_object_holds_stamp, stamp_reads_back};
use super::service::{count, Event, Reply, Service, Step};
use crate::json::{bool_member, parsed_object};

verus! {

/// One step of the loop: the service before it, the event with the two clock
/// readings, the service after it and what the step asked for.
pub struct Transition<E, X> {
    pub before: Service<E>,
    pub event: Event<E, X>,
    pub now_ms: u64,
    pub sampled_at_ms: u64,
    pub after: Service<E>,
    pub out: Step<E, X>,
}

/// Whether a transition is a step of the loop: its event is the one that the
/// loop waited for, and the rest is what the event does.
pub open spec fn is_step<E, X>(t: Transition<E, X>) -> bool {
    &&& t.before.phase.accepts(t.event)
    &&& Service::step_outcome(t.before, t.event, t.now_ms, t.sampled_at_ms, t.after, t.out)
}

/// Whether the transitions are a run of the loop: every one is a step, and
/// each begins in the phase in which the one before it ended.
pub open spec fn is_run<E, X>(run: Seq<Transition<E, X>>) -> bool {
    &&& forall|i: int| 0 <= i < run.len() ==> is_step(#[trigger] run[i])
    &&& is_chained(run)
}

/// The number of requests taken in a run.
pub open spec fn requests_in<E, X>(run: Seq<Transition<E, X>>) -> nat
    decreases run.len(),
{
    if run.len() == 0 {
        0
    } else {
        requests_in(run.drop_last()) + count(run.last().event is Request)
    }
}

/// The number of replies asked for in a run.
pub open spec fn replies_in<E, X>(run: Seq<Transition<E, X>>) -> nat
    decreases run.len(),
{
    if run.len() == 0 {
        0
    } else {
        replies_in(run.drop_last()) + count(run.last().out.reply is Some)
    }
}

/// Whether a transition keeps count: the requests in hand before it and the
/// request it takes are as many as its reply and the requests in hand after
/// it.
pub open spec fn keeps_count<E, X>(t: Transition<E, X>) -> bool {
    count(t.before.phase.owes_reply()) + count(t.event is Request) == count(t.out.reply is Some)
        + count(t.after.phase.owes_reply())
}

/// Whether each transition begins in the phase in which the one before it
/// ended.
pub open spec fn is_chained<E, X>(run: Seq<Transition<E, X>>) -> bool {
    forall|i: int, j: int|
        0 <= i && j == i + 1 && j < run.len() ==> (#[trigger] run[i]).after.phase == (
        #[trigger] run[j]).before.phase
}

/// A step replies exactly when it ends a request in hand or deals at once
/// with the request it takes.
pub proof fn lemma_step_keeps_count<E, X>(t: Transition<E, X>)
    requires
        is_step(t),
    ensures
        keeps_count(t),
{
}

/// In a run that starts with an idle loop every request is replied to once,
/// but for the one that is in hand when the run ends: the replies and the
/// request in hand are as many as the requests.
pub proof fn lemma_one_reply_per_request<E, X>(run: Seq<Transition<E, X>>)
    requires
        is_run(run),
        run.len() > 0,
        run.first().before.phase is Idle,
    ensures
        requests_in(run) == replies_in(run) + count(run.last().after.phase.owes_reply()),
{
    assert forall|i: int| 0 <= i < run.len() implies keeps_count(#[trigger] run[i]) by {
        lemma_step_keeps_count(run[i]);
    }
    lemma_counted_run(run);
}

proof fn lemma_counted_run<E, X>(run: Seq<Transition<E, X>>)
    requires
        forall|i: int| 0 <= i < run.len() ==> keeps_count(#[trigger] run[i]),
        is_chained(run),
        run.len() > 0,
        run.first().before.phase is Idle,
    ensures
        requests_in(run) == replies_in(run) + count(run.last().after.phase.owes_reply()),
    decreases run.len(),
{
    let shorter = run.drop_last();
    if run.len() == 1 {
        assert(requests_in(shorter) == 0);
        assert(replies_in(shorter) == 0);
    } else {
        lemma_counted_run(shorter);
    }
}

/// A run that ends with the loop idle or stopped has replied to every
/// request that it took.
pub proof fn lemma_replies_equal_requests<E, X>(run: Seq<Transition<E, X>>)
    requires
        is_run(run),
        run.len() > 0,
        run.first().before.phase is Idle,
        run.last().after.phase is Idle || run.last().after.phase is Stopped
            || run.last().after.phase is Draining,
    ensures
        requests_in(run) == replies_in(run),
{
    lemma_one_reply_per_request(run);
}

/// After a handoff that succeeded the reply is the secondary's metadata with
/// the stamp, and where that metadata is a JSON object whose stamped form
/// reads as the stamped object, the reply says that the session has
/// migrated.
pub proof fn lemma_reply_after_handoff_is_migrated<E, X>(
    before: Service<E>,
    handoff: HandoffResult<E>,
    after: Service<E>,
    out: Step<E, X>,
)
    requires
        Service::handoff_done_step(before, Ok(handoff), after, out),
        parsed_object(handoff.result_json@) is Some,
        stamp_reads_back(handoff.result_json@, true),
    ensures
        out.reply matches Some(Reply::Text(Ok(text))) && parsed_object(text@) matches Some(
            members,
        ) && bool_member(members, "migrated"@) == Some(true),
{
    lemma_stamped_object_holds_stamp(handoff.result_json@, true);
}

/// After a handoff that failed the broker's state is what it was, and the
/// reply is the primary's metadata, a success.
pub proof fn lemma_failed_handoff_changes_nothing<E, X>(
    before: Service<E>,
    failure: HandoffFailure<E>,
    after: Service<E>,
    out: Step<E, X>,
)
    requires
        before.phase is HandingOff,
        Service::handoff_done_step(before, Err(failure), after, out),
    ensures
        after.state == before.state,
        after.scorer == before.scorer,
        out.reply matches Some(Reply::Text(Ok(_))),
{
}

/// Escalation never turns a success into an error: after a navigation that
/// succeeded the reply, where one is due, is a success, and so is the reply
/// after the handoff, however that ended.
pub proof fn lemma_escalation_keeps_success<E, X>(t: Transition<E, X>)
    requires
        is_step(t),
        t.event matches Event::Navigated(Ok(_)) || t.event is HandoffDone,
    ensures
        t.out.reply is None || t.out.reply matches Some(Reply::Text(Ok(_))),
        t.event is HandoffDone ==> t.out.reply is Some,
{
}

/// The engines that a service holds: the active one and the one standing
/// by.
pub open spec fn engines_held<E>(service: Service<E>) -> Multiset<E> {
    Multiset::singleton(service.state.active_engine).add(
        one_or_none(service.state.standby_primary),
    )
}

/// The engines that an event brings to the service: the secondary of a
/// handoff that succeeded, or the one that a failed handoff left behind.
pub open spec fn engines_brought<E, X>(event: Event<E, X>) -> Multiset<E> {
    match event {
        Event::HandoffDone(Ok(handoff)) => Multiset::singleton(handoff.secondary),
        Event::HandoffDone(Err(failure)) => one_or_none(failure.abandoned),
        _ => Multiset::empty(),
    }
}

/// No engine is dropped: the engines that the service held and the one that
/// the event brought are those that it holds after the step and the one
/// that it hands out for closing.
pub proof fn lemma_no_engine_is_dropped<E, X>(t: Transition<E, X>)
    requires
        is_step(t),
        t.before.wf(),
    ensures
        engines_held(t.before).add(engines_brought(t.event)) =~= engines_held(t.after).add(
            one_or_none(t.out.close),
        ),
{
}

} // verus!
