//! The broker's state: which engine is active, in which role, which engine
//! stands by, and how the active engine has fared.
//!
//! Time is a reading of a monotonic clock in milliseconds.

use vstd::prelude::*;

verus! {

/// Consecutive failures after which the active engine's budget is exhausted.
pub const ACTIVE_FAILURE_BUDGET: u32 = 3;

/// The time allowed for a whole handoff, in milliseconds.
pub const ESCALATION_TIMEOUT_MS: u64 = 10_000;

/// How long after a rollback no escalation is attempted, in milliseconds.
pub const ESCALATION_BACKOFF_AFTER_ROLLBACK_MS: u64 = 30_000;

/// The role of the active engine.
#[derive(Debug, Clone, Copy, PartialEq, Eq, Structural)]
pub enum EngineRole {
    /// The engine that the broker was started with.
    Primary,
    /// An engine adopted by an escalation.
    SecondaryProxy,
}

impl EngineRole {
    /// The role's name in lower case.
    pub fn as_str(&self) -> (r: &'static str)
        ensures
            r@ == (match *self {
                EngineRole::Primary => "primary"@,
                EngineRole::SecondaryProxy => "secondary_proxy"@,
            }),
    {
        match self {
            EngineRole::Primary => "primary",
            EngineRole::SecondaryProxy => "secondary_proxy",
        }
    }
}

/// The broker's state over engine handles of type `E`.
pub struct BrokerState<E> {
    pub active_engine: E,
    pub active_role: EngineRole,
    pub standby_primary: Option<E>,
    pub consecutive_failures: u32,
    pub escalation_backoff_until: Option<u64>,
    pub next_page_id: u32,
    pub engine_closed: bool,
}

/// Why an escalation is not attempted.
pub open spec fn skip_reason_of(
    role: EngineRole,
    standby_present: bool,
    backoff_until: Option<u64>,
    now_ms: u64,
) -> Option<Seq<char>> {
    if role == EngineRole::SecondaryProxy {
        Some("already_on_secondary"@)
    } else if standby_present {
        Some("standby_primary_present"@)
    } else if backoff_until matches Some(until) && now_ms < until {
        Some("in_backoff_window"@)
    } else {
        None
    }
}

/// The number after `n`, held at the maximum of `u32`.
pub open spec fn next_up(n: u32) -> u32 {
    if n == u32::MAX {
        u32::MAX
    } else {
        (n + 1) as u32
    }
}

/// The number that stands after counting up from `start` the given number
/// of times.
pub open spec fn counted_up(start: u32, times: nat) -> u32
    decreases times,
{
    if times == 0 {
        start
    } else {
        next_up(counted_up(start, (times - 1) as nat))
    }
}

/// Whether a failure count exhausts the budget.
pub open spec fn budget_exhausted(failures: u32) -> bool {
    failures >= ACTIVE_FAILURE_BUDGET
}

/// Counting up adds one each time until the maximum of `u32` is reached, and
/// stays there.
pub proof fn lemma_counted_up(start: u32, times: nat)
    ensures
        counted_up(start, times) == if start + times <= u32::MAX {
            start + times
        } else {
            u32::MAX as int
        },
    decreases times,
{
    if times > 0 {
        lemma_counted_up(start, (times - 1) as nat);
    }
}

/// After a success the budget is exhausted by the third failure in a row,
/// not before it, and it stays exhausted for as long as failures follow.
pub proof fn lemma_budget_exhausted_by_third_failure(calls: nat)
    ensures
        budget_exhausted(counted_up(0, calls)) <==> calls >= 3,
{
    lemma_counted_up(0, calls);
}

/// Page ids never fall: the id that is next after more allocations is no
/// smaller, and no allocation takes it past the maximum of `u32`.
pub proof fn lemma_page_ids_never_fall(next_page_id: u32, fewer: nat, more: nat)
    requires
        fewer <= more,
    ensures
        next_page_id <= counted_up(next_page_id, fewer) <= counted_up(next_page_id, more)
            <= u32::MAX,
{
    lemma_counted_up(next_page_id, fewer);
    lemma_counted_up(next_page_id, more);
}

/// The end of the backoff that starts at `now_ms`.
pub open spec fn backoff_end(now_ms: u64) -> u64 {
    if now_ms + ESCALATION_BACKOFF_AFTER_ROLLBACK_MS > u64::MAX {
        u64::MAX
    } else {
        (now_ms + ESCALATION_BACKOFF_AFTER_ROLLBACK_MS) as u64
    }
}

impl<E> BrokerState<E> {
    /// Whether the state is well formed: an engine stands by exactly while
    /// the active engine is a secondary.
    pub open spec fn wf(&self) -> bool {
        self.standby_primary is Some <==> self.active_role == EngineRole::SecondaryProxy
    }

    /// Whether escalation is held back at `now_ms` by an earlier rollback.
    pub open spec fn in_backoff(&self, now_ms: u64) -> bool {
        self.escalation_backoff_until matches Some(until) && now_ms < until
    }

    /// Why an escalation would be skipped at `now_ms`, if it would.
    pub open spec fn skip_reason(&self, now_ms: u64) -> Option<Seq<char>> {
        skip_reason_of(
            self.active_role,
            self.standby_primary is Some,
            self.escalation_backoff_until,
            now_ms,
        )
    }

    /// The state of a broker that starts with `engine` as its primary.
    pub fn new(engine: E) -> (r: Self)
        ensures
            r.active_engine == engine,
            r.active_role == EngineRole::Primary,
            r.standby_primary is None,
            r.consecutive_failures == 0,
            r.escalation_backoff_until is None,
            r.next_page_id == 1,
            !r.engine_closed,
            r.wf(),
    {
        BrokerState {
            active_engine: engine,
            active_role: EngineRole::Primary,
            standby_primary: None,
            consecutive_failures: 0,
            escalation_backoff_until: None,
            next_page_id: 1,
            engine_closed: false,
        }
    }

    /// Notes that an operation of the active engine succeeded.
    pub fn record_success(&mut self)
        ensures
            final(self).consecutive_failures == 0,
            final(self).active_engine == old(self).active_engine,
            final(self).active_role == old(self).active_role,
            final(self).standby_primary == old(self).standby_primary,
            final(self).escalation_backoff_until == old(self).escalation_backoff_until,
            final(self).next_page_id == old(self).next_page_id,
            final(self).engine_closed == old(self).engine_closed,
    {
        self.consecutive_failures = 0;
    }

    /// Notes that an operation of the active engine failed. Returns whether
    /// the failure budget is exhausted.
    pub fn record_failure(&mut self) -> (exhausted: bool)
        ensures
            final(self).consecutive_failures == next_up(old(self).consecutive_failures),
            exhausted == budget_exhausted(final(self).consecutive_failures),
            final(self).active_engine == old(self).active_engine,
            final(self).active_role == old(self).active_role,
            final(self).standby_primary == old(self).standby_primary,
            final(self).escalation_backoff_until == old(self).escalation_backoff_until,
            final(self).next_page_id == old(self).next_page_id,
            final(self).engine_closed == old(self).engine_closed,
    {
        self.consecutive_failures = self.consecutive_failures.saturating_add(1);
        self.consecutive_failures >= ACTIVE_FAILURE_BUDGET
    }

    /// Why an escalation is skipped at `now_ms`: because the active engine is
    /// a secondary already, because a primary stands by, or because a
    /// rollback's backoff has not passed. `None` where it is not skipped.
    pub fn escalation_skip_reason(&self, now_ms: u64) -> (r: Option<&'static str>)
        ensures
            match r {
                Some(reason) => self.skip_reason(now_ms) == Some(reason@),
                None => self.skip_reason(now_ms) is None,
            },
            r is Some <==> (self.active_role == EngineRole::SecondaryProxy
                || self.standby_primary is Some || self.in_backoff(now_ms)),
    {
        if self.active_role == EngineRole::SecondaryProxy {
            return Some("already_on_secondary");
        }
        if self.standby_primary.is_some() {
            return Some("standby_primary_present");
        }
        if let Some(until) = self.escalation_backoff_until {
            if now_ms < until {
                return Some("in_backoff_window");
            }
        }
        None
    }

    /// Adopts `secondary` as the active engine. The engine that was active
    /// stands by, and the failure count starts again. The engine that is
    /// active now has not been closed.
    pub fn apply_escalation(&mut self, secondary: E)
        requires
            old(self).active_role == EngineRole::Primary,
            old(self).standby_primary is None,
        ensures
            final(self).active_engine == secondary,
            final(self).standby_primary == Some(old(self).active_engine),
            final(self).active_role == EngineRole::SecondaryProxy,
            final(self).consecutive_failures == 0,
            final(self).escalation_backoff_until == old(self).escalation_backoff_until,
            final(self).next_page_id == old(self).next_page_id,
            !final(self).engine_closed,
            final(self).wf(),
    {
        let mut former = secondary;
        core::mem::swap(&mut self.active_engine, &mut former);
        self.standby_primary = Some(former);
        self.active_role = EngineRole::SecondaryProxy;
        self.consecutive_failures = 0;
        self.engine_closed = false;
    }

    /// Goes back to the engine that stands by, at the time `now_ms`. The
    /// secondary that failed is returned for the caller to close; the failure
    /// count starts again, and escalation is held back for the backoff. The
    /// engine that is active now has not been closed.
    /// Without an engine standing by nothing changes and nothing is returned.
    pub fn apply_rollback(&mut self, now_ms: u64) -> (failed: Option<E>)
        ensures
            match old(self).standby_primary {
                Some(primary) => {
                    &&& failed == Some(old(self).active_engine)
                    &&& final(self).active_engine == primary
                    &&& final(self).standby_primary is None
                    &&& final(self).active_role == EngineRole::Primary
                    &&& final(self).consecutive_failures == 0
                    &&& final(self).escalation_backoff_until == Some(backoff_end(now_ms))
                    &&& final(self).next_page_id == old(self).next_page_id
                    &&& !final(self).engine_closed
                    &&& final(self).wf()
                },
                None => failed is None && *final(self) == *old(self),
            },
    {
        match self.standby_primary.take() {
            Some(primary) => {
                let mut failed = primary;
                core::mem::swap(&mut self.active_engine, &mut failed);
                self.active_role = EngineRole::Primary;
                self.consecutive_failures = 0;
                self.engine_closed = false;
                self.escalation_backoff_until = Some(
                    now_ms.saturating_add(ESCALATION_BACKOFF_AFTER_ROLLBACK_MS),
                );
                Some(failed)
            },
            None => None,
        }
    }

    /// Hands out the next page id. The ids rise by one and stay at the
    /// maximum once it is reached.
    pub fn allocate_page_id(&mut self) -> (page_id: u32)
        ensures
            page_id == old(self).next_page_id,
            final(self).next_page_id == next_up(old(self).next_page_id),
            final(self).next_page_id >= old(self).next_page_id,
            final(self).active_engine == old(self).active_engine,
            final(self).active_role == old(self).active_role,
            final(self).standby_primary == old(self).standby_primary,
            final(self).consecutive_failures == old(self).consecutive_failures,
            final(self).escalation_backoff_until == old(self).escalation_backoff_until,
            final(self).engine_closed == old(self).engine_closed,
    {
        let page_id = self.next_page_id;
        self.next_page_id = self.next_page_id.saturating_add(1);
        page_id
    }
}

} // verus!
