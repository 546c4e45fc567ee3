use pneuma::broker::service::handle_operation_health;
use pneuma::broker::state::{
    BrokerState, EngineRole, ACTIVE_FAILURE_BUDGET, ESCALATION_BACKOFF_AFTER_ROLLBACK_MS,
    ESCALATION_TIMEOUT_MS,
};

#[derive(Debug, Clone, PartialEq, Eq)]
struct FakeEngine {
    name: &'static str,
    title: String,
}

impl FakeEngine {
    fn happy(name: &'static str, title: &str) -> Self {
        FakeEngine { name, title: title.to_string() }
    }
}

#[test]
fn backoff_active_suppresses_escalation() {
    let engine = Box::new(FakeEngine::happy("primary", "title"));
    let mut state = BrokerState::new(engine);
    let now: u64 = 5_000;
    state.escalation_backoff_until = Some(now + 60 * 1000);
    assert_eq!(state.escalation_skip_reason(now), Some("in_backoff_window"));
}

#[test]
fn backoff_expired_allows_escalation() {
    let engine = Box::new(FakeEngine::happy("primary", "title"));
    let mut state = BrokerState::new(engine);
    let now: u64 = 5_000;
    state.escalation_backoff_until = Some(now - 1000);
    assert_eq!(state.escalation_skip_reason(now), None);
}

#[test]
fn record_failure_reaches_budget() {
    let engine = Box::new(FakeEngine::happy("primary", "title"));
    let mut state = BrokerState::new(engine);
    state.active_role = EngineRole::SecondaryProxy;
    assert!(!state.record_failure());
    assert!(!state.record_failure());
    assert!(state.record_failure());
}

#[test]
fn record_success_resets_counter() {
    let engine = Box::new(FakeEngine::happy("primary", "title"));
    let mut state = BrokerState::new(engine);
    state.record_failure();
    state.record_failure();
    state.record_success();
    assert!(!state.record_failure());
}

#[test]
fn tunables_have_their_values() {
    assert_eq!(ACTIVE_FAILURE_BUDGET, 3);
    assert_eq!(ESCALATION_TIMEOUT_MS, 10_000);
    assert_eq!(ESCALATION_BACKOFF_AFTER_ROLLBACK_MS, 30_000);
}

#[test]
fn new_state_is_a_fresh_primary() {
    let state = BrokerState::new(FakeEngine::happy("primary", "t"));
    assert_eq!(state.active_engine.name, "primary");
    assert_eq!(state.active_role, EngineRole::Primary);
    assert!(state.standby_primary.is_none());
    assert_eq!(state.consecutive_failures, 0);
    assert_eq!(state.escalation_backoff_until, None);
    assert_eq!(state.next_page_id, 1);
    assert!(!state.engine_closed);
    assert_eq!(state.escalation_skip_reason(0), None);
    assert_eq!(EngineRole::Primary.as_str(), "primary");
    assert_eq!(EngineRole::SecondaryProxy.as_str(), "secondary_proxy");
}

#[test]
fn budget_stays_exhausted_and_counter_saturates() {
    let mut state = BrokerState::new("primary");
    for call in 1..=10u32 {
        assert_eq!(state.record_failure(), call >= 3);
        assert_eq!(state.consecutive_failures, call);
    }
    state.consecutive_failures = u32::MAX - 1;
    assert!(state.record_failure());
    assert_eq!(state.consecutive_failures, u32::MAX);
    assert!(state.record_failure());
    assert_eq!(state.consecutive_failures, u32::MAX);
    state.record_success();
    assert_eq!(state.consecutive_failures, 0);
}

#[test]
fn skip_reasons_come_in_order() {
    let mut state = BrokerState::new("primary");
    state.escalation_backoff_until = Some(100);
    assert_eq!(state.escalation_skip_reason(99), Some("in_backoff_window"));
    assert_eq!(state.escalation_skip_reason(100), None);
    assert_eq!(state.escalation_skip_reason(101), None);
    state.standby_primary = Some("standby");
    assert_eq!(state.escalation_skip_reason(99), Some("standby_primary_present"));
    assert_eq!(state.escalation_skip_reason(100), Some("standby_primary_present"));
    state.active_role = EngineRole::SecondaryProxy;
    assert_eq!(state.escalation_skip_reason(99), Some("already_on_secondary"));
    state.standby_primary = None;
    state.escalation_backoff_until = None;
    assert_eq!(state.escalation_skip_reason(0), Some("already_on_secondary"));
}

#[test]
fn escalation_swaps_engines_and_rollback_swaps_back() {
    let mut state = BrokerState::new("primary");
    state.record_failure();
    state.engine_closed = true;
    state.apply_escalation("secondary");
    assert_eq!(state.active_engine, "secondary");
    assert_eq!(state.standby_primary, Some("primary"));
    assert_eq!(state.active_role, EngineRole::SecondaryProxy);
    assert_eq!(state.consecutive_failures, 0);
    assert_eq!(state.escalation_backoff_until, None);
    assert!(!state.engine_closed);
    assert_eq!(state.escalation_skip_reason(0), Some("already_on_secondary"));

    state.record_failure();
    let failed = state.apply_rollback(1_000);
    assert_eq!(failed, Some("secondary"));
    assert_eq!(state.active_engine, "primary");
    assert_eq!(state.standby_primary, None);
    assert_eq!(state.active_role, EngineRole::Primary);
    assert_eq!(state.consecutive_failures, 0);
    assert_eq!(state.escalation_backoff_until, Some(31_000));
    assert_eq!(state.escalation_skip_reason(30_999), Some("in_backoff_window"));
    assert_eq!(state.escalation_skip_reason(31_000), None);
}

#[test]
fn rollback_without_standby_changes_nothing() {
    let mut state = BrokerState::new("only");
    state.active_role = EngineRole::SecondaryProxy;
    state.consecutive_failures = 7;
    assert_eq!(state.apply_rollback(50), None);
    assert_eq!(state.active_engine, "only");
    assert_eq!(state.active_role, EngineRole::SecondaryProxy);
    assert_eq!(state.consecutive_failures, 7);
    assert_eq!(state.escalation_backoff_until, None);
}

#[test]
fn backoff_end_saturates() {
    let mut state = BrokerState::new("primary");
    state.apply_escalation("secondary");
    assert_eq!(state.apply_rollback(u64::MAX - 5), Some("secondary"));
    assert_eq!(state.escalation_backoff_until, Some(u64::MAX));
}

#[test]
fn page_ids_rise_and_saturate() {
    let mut state = BrokerState::new("primary");
    assert_eq!(state.allocate_page_id(), 1);
    assert_eq!(state.allocate_page_id(), 2);
    assert_eq!(state.allocate_page_id(), 3);
    state.next_page_id = u32::MAX - 1;
    assert_eq!(state.allocate_page_id(), u32::MAX - 1);
    assert_eq!(state.allocate_page_id(), u32::MAX);
    assert_eq!(state.allocate_page_id(), u32::MAX);
    assert_eq!(state.next_page_id, u32::MAX);
}

#[test]
fn health_rolls_back_a_secondary_on_the_third_failure() {
    let mut state = BrokerState::new("primary");
    state.apply_escalation("secondary");
    assert_eq!(handle_operation_health(&mut state, false, 10), None);
    assert_eq!(handle_operation_health(&mut state, false, 20), None);
    assert_eq!(state.consecutive_failures, 2);
    assert_eq!(handle_operation_health(&mut state, false, 30), Some("secondary"));
    assert_eq!(state.active_engine, "primary");
    assert_eq!(state.active_role, EngineRole::Primary);
    assert_eq!(state.consecutive_failures, 0);
    assert_eq!(state.escalation_backoff_until, Some(30_030));
}

#[test]
fn health_of_a_primary_only_counts() {
    let mut state = BrokerState::new("primary");
    for call in 1..=5u32 {
        assert_eq!(handle_operation_health(&mut state, false, 0), None);
        assert_eq!(state.consecutive_failures, call);
        assert_eq!(state.active_role, EngineRole::Primary);
    }
    assert_eq!(handle_operation_health(&mut state, true, 0), None);
    assert_eq!(state.consecutive_failures, 0);
    assert_eq!(state.escalation_backoff_until, None);
}

#[test]
fn success_between_failures_spares_the_secondary() {
    let mut state = BrokerState::new("primary");
    state.apply_escalation("secondary");
    assert_eq!(handle_operation_health(&mut state, false, 0), None);
    assert_eq!(handle_operation_health(&mut state, false, 0), None);
    assert_eq!(handle_operation_health(&mut state, true, 0), None);
    assert_eq!(handle_operation_health(&mut state, false, 0), None);
    assert_eq!(handle_operation_health(&mut state, false, 0), None);
    assert_eq!(state.active_engine, "secondary");
    assert_eq!(handle_operation_health(&mut state, false, 0), Some("secondary"));
}
