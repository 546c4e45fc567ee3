use pneuma::broker::confidence::scorer::{ESCALATION_THRESHOLD, SCORE_ONE};
use pneuma::broker::confidence::{
    ConfidenceScorer, ConfidenceSignals, EngineDecision, FailureReason,
};
use pneuma::broker::Broker;
use pneuma::engines::EngineKind;

fn healthy_signals() -> ConfidenceSignals {
    ConfidenceSignals {
        first_paint_ms: Some(450),
        paint_element_count: 80,
        dom_element_count: 40,
        body_text_length: 600,
        js_errors: 0,
        ..Default::default()
    }
}

fn as_fraction(score: u32) -> f64 {
    f64::from(score) / f64::from(SCORE_ONE)
}

#[test]
fn healthy_page_stays_on_servo() {
    let scorer = ConfidenceScorer::new();
    let report = scorer.score(&healthy_signals());
    assert!(as_fraction(report.overall) >= 0.60);
    assert_eq!(report.decision, EngineDecision::StayOnServo);
}

#[test]
fn zero_paint_escalates() {
    let scorer = ConfidenceScorer::new();
    let signals = ConfidenceSignals {
        first_paint_ms: None,
        paint_element_count: 0,
        ..Default::default()
    };
    let report = scorer.score(&signals);
    assert_eq!(as_fraction(report.paint_score), 0.0);
    assert!(matches!(
        report.decision,
        EngineDecision::EscalateToLadybird(FailureReason::ZeroPaint)
    ));
}

#[test]
fn spa_shell_escalates_immediately() {
    let scorer = ConfidenceScorer::new();
    let signals = ConfidenceSignals {
        first_paint_ms: Some(200),
        paint_element_count: 3,
        dom_element_count: 2,
        body_text_length: 10,
        ..Default::default()
    };
    let report = scorer.score(&signals);
    assert!(matches!(
        report.decision,
        EngineDecision::EscalateToLadybird(FailureReason::SpaPrehydrationStall)
    ));
}

#[test]
fn js_crash_loop_escalates() {
    let scorer = ConfidenceScorer::new();
    let signals = ConfidenceSignals {
        first_paint_ms: Some(500),
        paint_element_count: 50,
        dom_element_count: 40,
        body_text_length: 500,
        js_errors: 5,
        ..Default::default()
    };
    let report = scorer.score(&signals);
    assert!(matches!(
        report.decision,
        EngineDecision::EscalateToLadybird(FailureReason::JsCrashLoop { .. })
    ));
    assert_eq!(
        report.decision,
        EngineDecision::EscalateToLadybird(FailureReason::JsCrashLoop { error_count: 5 })
    );
}

#[test]
fn custom_threshold_is_respected() {
    let scorer = ConfidenceScorer::with_threshold(95_000);
    let report = scorer.score(&healthy_signals());
    assert!(matches!(report.decision, EngineDecision::EscalateToLadybird(_)));
    assert_eq!(report.failure_reason, None);
}

#[test]
fn default_scorer_uses_default_threshold() {
    assert_eq!(ConfidenceScorer::new().escalation_threshold, ESCALATION_THRESHOLD);
    assert_eq!(ConfidenceScorer::default().escalation_threshold, 60_000);
    assert_eq!(ConfidenceScorer::with_threshold(1).escalation_threshold, 1);
}

#[test]
fn healthy_page_scores_are_exact() {
    let report = ConfidenceScorer::new().score(&healthy_signals());
    assert_eq!(report.paint_score, 92_000);
    assert_eq!(report.dom_score, 70_000);
    assert_eq!(report.js_score, 100_000);
    assert_eq!(report.network_score, 100_000);
    assert_eq!(report.overall, 88_200);
    assert_eq!(report.failure_reason, None);
}

#[test]
fn paint_score_follows_each_rule() {
    let scorer = ConfidenceScorer::new();
    let paint = |first_paint_ms: Option<u64>, paint_element_count: usize| {
        scorer
            .score(&ConfidenceSignals {
                first_paint_ms,
                paint_element_count,
                ..Default::default()
            })
            .paint_score
    };
    assert_eq!(paint(None, 500), 0);
    assert_eq!(paint(Some(100), 0), 10_000);
    assert_eq!(paint(Some(8001), 10), 30_000);
    assert_eq!(paint(Some(8000), 10), 60_000);
    assert_eq!(paint(Some(3001), 10), 60_000);
    assert_eq!(paint(Some(3000), 10), 64_000);
    assert_eq!(paint(Some(3000), 100), 100_000);
    assert_eq!(paint(Some(3000), usize::MAX), 100_000);
    assert_eq!(paint(Some(u64::MAX), 0), 10_000);
}

#[test]
fn dom_score_follows_each_rule() {
    let scorer = ConfidenceScorer::new();
    let dom = |dom_element_count: usize, body_text_length: usize| {
        scorer
            .score(&ConfidenceSignals {
                dom_element_count,
                body_text_length,
                ..Default::default()
            })
            .dom_score
    };
    assert_eq!(dom(4, 49), 20_000);
    assert_eq!(dom(4, 50), 50_000);
    assert_eq!(dom(5, 0), 50_000);
    assert_eq!(dom(19, 0), 50_000);
    assert_eq!(dom(20, 0), 60_000);
    assert_eq!(dom(99, 0), 99_500);
    assert_eq!(dom(100, 0), 100_000);
    assert_eq!(dom(usize::MAX, 0), 100_000);
}

#[test]
fn js_score_subtracts_and_stops_at_zero() {
    let scorer = ConfidenceScorer::new();
    let js = |rejections: u32, console: u32, errors: u32| {
        scorer
            .score(&ConfidenceSignals {
                unhandled_promise_rejections: rejections,
                console_error_count: console,
                js_errors: errors,
                ..Default::default()
            })
            .js_score
    };
    assert_eq!(js(0, 0, 0), 100_000);
    assert_eq!(js(1, 1, 1), 70_000);
    assert_eq!(js(2, 3, 1), 45_000);
    assert_eq!(js(0, 20, 0), 0);
    assert_eq!(js(0, 0, 10), 0);
    assert_eq!(js(7, 0, 0), 0);
    assert_eq!(js(u32::MAX, u32::MAX, u32::MAX), 0);
}

#[test]
fn network_penalties_saturate() {
    let scorer = ConfidenceScorer::new();
    let network = |pending: u32, cors: u32, failed: u32| {
        scorer
            .score(&ConfidenceSignals {
                pending_requests_at_sample: pending,
                cors_violations: cors,
                failed_resource_count: failed,
                ..Default::default()
            })
            .network_score
    };
    assert_eq!(network(0, 0, 0), 100_000);
    assert_eq!(network(1, 1, 1), 82_000);
    assert_eq!(network(6, 0, 0), 70_000);
    assert_eq!(network(7, 0, 0), 70_000);
    assert_eq!(network(0, 4, 0), 60_000);
    assert_eq!(network(0, 5, 0), 60_000);
    assert_eq!(network(0, 0, 6), 82_000);
    assert_eq!(network(0, 0, 7), 80_000);
    assert_eq!(network(u32::MAX, u32::MAX, u32::MAX), 10_000);
}

#[test]
fn scores_stay_in_unit_range_at_the_extremes() {
    let scorer = ConfidenceScorer::new();
    let extreme = ConfidenceSignals {
        first_paint_ms: Some(0),
        paint_element_count: usize::MAX,
        dom_element_count: usize::MAX,
        dom_depth_max: usize::MAX,
        body_text_length: usize::MAX,
        js_errors: u32::MAX,
        unhandled_promise_rejections: u32::MAX,
        console_error_count: u32::MAX,
        js_execution_time_ms: u64::MAX,
        failed_resource_count: u32::MAX,
        cors_violations: u32::MAX,
        pending_requests_at_sample: u32::MAX,
        css_parse_failures: u32::MAX,
        sampled_at_ms: u64::MAX,
    };
    for signals in [extreme, ConfidenceSignals::default(), healthy_signals()] {
        let report = scorer.score(&signals);
        for score in [
            report.paint_score,
            report.dom_score,
            report.js_score,
            report.network_score,
            report.overall,
        ] {
            assert!(score <= SCORE_ONE);
        }
    }
    assert_eq!(scorer.score(&extreme).overall, 35_000 + 30_000 + 1_000);
}

#[test]
fn classification_takes_the_first_matching_rule() {
    let scorer = ConfidenceScorer::new();
    let base = ConfidenceSignals {
        first_paint_ms: Some(500),
        paint_element_count: 50,
        dom_element_count: 40,
        body_text_length: 500,
        ..Default::default()
    };
    let reason = |signals: ConfidenceSignals| scorer.score(&signals).failure_reason;
    assert_eq!(reason(base), None);
    let slow = ConfidenceSignals { js_execution_time_ms: 5001, ..base };
    assert_eq!(reason(slow), Some(FailureReason::SlowExecution { ms: 5001 }));
    assert_eq!(reason(ConfidenceSignals { js_execution_time_ms: 5000, ..base }), None);
    let css = ConfidenceSignals { css_parse_failures: 4, ..slow };
    assert_eq!(reason(css), Some(FailureReason::CssLayoutCollapse));
    assert_eq!(reason(ConfidenceSignals { css_parse_failures: 3, ..base }), None);
    let network = ConfidenceSignals { failed_resource_count: 6, ..css };
    assert_eq!(reason(network), Some(FailureReason::NetworkStarvation { failed: 6 }));
    assert_eq!(
        reason(ConfidenceSignals { cors_violations: 3, ..base }),
        Some(FailureReason::NetworkStarvation { failed: 0 })
    );
    let js = ConfidenceSignals { unhandled_promise_rejections: 3, ..network };
    assert_eq!(reason(js), Some(FailureReason::JsCrashLoop { error_count: 0 }));
    assert_eq!(
        reason(ConfidenceSignals { js_errors: 4, ..network }),
        Some(FailureReason::JsCrashLoop { error_count: 4 })
    );
    assert_eq!(reason(ConfidenceSignals { js_errors: 3, ..base }), None);
    let shell = ConfidenceSignals { dom_element_count: 4, body_text_length: 49, ..js };
    assert_eq!(reason(shell), Some(FailureReason::SpaPrehydrationStall));
    let unpainted = ConfidenceSignals { first_paint_ms: None, ..shell };
    assert_eq!(reason(unpainted), Some(FailureReason::ZeroPaint));
}

#[test]
fn low_confidence_without_a_failure_escalates_as_zero_paint() {
    // Painted, but late and nothing on the page: no rule matches, and the
    // overall score is 0.35 * 0.3 + 0.30 * 0.5 + 0.25 * 0.4 + 0.10 * 0.58.
    let signals = ConfidenceSignals {
        first_paint_ms: Some(9000),
        paint_element_count: 1,
        dom_element_count: 10,
        body_text_length: 100,
        js_errors: 3,
        unhandled_promise_rejections: 2,
        failed_resource_count: 4,
        pending_requests_at_sample: 6,
        ..Default::default()
    };
    let report = ConfidenceScorer::new().score(&signals);
    assert_eq!(report.failure_reason, None);
    assert_eq!(report.js_score, 40_000);
    assert_eq!(report.network_score, 58_000);
    assert_eq!(report.overall, 41_300);
    assert_eq!(
        report.decision,
        EngineDecision::EscalateToLadybird(FailureReason::ZeroPaint)
    );
    let lenient = ConfidenceScorer::with_threshold(41_300).score(&signals);
    assert_eq!(lenient.decision, EngineDecision::StayOnServo);
    let strict = ConfidenceScorer::with_threshold(41_301).score(&signals);
    assert_eq!(
        strict.decision,
        EngineDecision::EscalateToLadybird(FailureReason::ZeroPaint)
    );
}

#[test]
fn broker_routes_to_ladybird_only_in_stealth() {
    let failing = ConfidenceSignals::default();
    assert_eq!(Broker::new(EngineKind::Servo, true).route(&failing), EngineKind::Ladybird);
    assert_eq!(Broker::new(EngineKind::Servo, false).route(&failing), EngineKind::Servo);
    assert_eq!(
        Broker::new(EngineKind::Servo, true).route(&healthy_signals()),
        EngineKind::Servo
    );
    assert_eq!(
        Broker::new(EngineKind::Ladybird, false).route(&healthy_signals()),
        EngineKind::Ladybird
    );
}
