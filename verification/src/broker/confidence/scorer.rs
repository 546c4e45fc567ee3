//! The confidence scorer: a pure function from signals to a report.
//!
//! Scores are exact fixed-point numbers: a score counts hundred-thousandths,
//! so that [`SCORE_ONE`] stands for 1.0 and every weight and penalty of the
//! scoring rules is a whole number of units.

use vstd::prelude::*;

use super::signals::ConfidenceSignals;

verus! {

/// The score 1.0.
pub const SCORE_ONE: u32 = 100_000;

/// The escalation threshold of a scorer made by [`ConfidenceScorer::new`]: 0.60.
pub const ESCALATION_THRESHOLD: u32 = 60_000;

/// Why a page is judged to have failed on the engine that rendered it.
#[derive(Debug, Clone, Copy, PartialEq, Eq, Structural)]
pub enum FailureReason {
    ZeroPaint,
    /// The page shell loaded but hydration by script did not complete.
    SpaPrehydrationStall,
    JsCrashLoop { error_count: u32 },
    NetworkStarvation { failed: u32 },
    CssLayoutCollapse,
    SlowExecution { ms: u64 },
}

/// What the broker should do with the page.
#[derive(Debug, Clone, PartialEq, Eq)]
pub enum EngineDecision {
    StayOnServo,
    EscalateToLadybird(FailureReason),
    /// Reserved: the scorer never decides this.
    RetryWithPatches(Vec<String>),
}

/// The scorer's output: four sub-scores, their weighted sum, the failure that
/// was recognised, if any, and the decision.
#[derive(Debug, Clone)]
pub struct ConfidenceReport {
    pub paint_score: u32,
    pub dom_score: u32,
    pub js_score: u32,
    pub network_score: u32,
    pub overall: u32,
    pub failure_reason: Option<FailureReason>,
    pub decision: EngineDecision,
}

/// Scores signals against an escalation threshold.
#[derive(Debug, Clone, Copy)]
pub struct ConfidenceScorer {
    pub escalation_threshold: u32,
}

/// The smaller of two integers.
pub open spec fn least(a: int, b: int) -> int {
    if a <= b {
        a
    } else {
        b
    }
}

/// The paint score: 0 without a first paint, 0.1 when nothing was painted,
/// 0.3 and 0.6 for paints later than 8 s and 3 s, and otherwise 0.6 plus
/// 0.004 for each painted element up to a hundred.
pub open spec fn paint_score(s: ConfidenceSignals) -> int {
    match s.first_paint_ms {
        None => 0,
        Some(ms) => if s.paint_element_count == 0 {
            10_000
        } else if ms > 8000 {
            30_000
        } else if ms > 3000 {
            60_000
        } else {
            60_000 + 400 * least(s.paint_element_count as int, 100)
        },
    }
}

/// The DOM score: 0.2 for an all but empty document, 0.5 below twenty
/// elements, and otherwise 0.5 plus 0.005 for each element, at most 1.
pub open spec fn dom_score(s: ConfidenceSignals) -> int {
    if s.dom_element_count < 5 && s.body_text_length < 50 {
        20_000
    } else if s.dom_element_count < 20 {
        50_000
    } else {
        least(50_000 + 500 * s.dom_element_count, SCORE_ONE as int)
    }
}

/// What script trouble takes off the script score before it is held at zero.
pub open spec fn js_penalty(s: ConfidenceSignals) -> int {
    15_000 * s.unhandled_promise_rejections + 5_000 * s.console_error_count + 10_000 * s.js_errors
}

/// The script score: 1 less the penalty, never below 0.
pub open spec fn js_score(s: ConfidenceSignals) -> int {
    if js_penalty(s) >= SCORE_ONE {
        0
    } else {
        SCORE_ONE - js_penalty(s)
    }
}

/// What network trouble takes off the network score: three penalties, each
/// with a ceiling of its own.
pub open spec fn network_penalty(s: ConfidenceSignals) -> int {
    least(5_000 * s.pending_requests_at_sample, 30_000) + least(10_000 * s.cors_violations, 40_000)
        + least(3_000 * s.failed_resource_count, 20_000)
}

/// The network score: 1 less the penalty.
pub open spec fn network_score(s: ConfidenceSignals) -> int {
    SCORE_ONE - network_penalty(s)
}

/// A hundred times the overall score: the sub-scores weighted by 35, 30, 25
/// and 10 percent.
pub open spec fn weighted_sum(s: ConfidenceSignals) -> int {
    35 * paint_score(s) + 30 * dom_score(s) + 25 * js_score(s) + 10 * network_score(s)
}

/// The overall score.
pub open spec fn overall_score(s: ConfidenceSignals) -> int {
    weighted_sum(s) / 100
}

/// The number of classification rules.
pub open spec fn rule_count() -> int {
    6
}

/// Whether the classification rule of the given rank matches signals with
/// the given paint and DOM scores. Rank 0 is the rule of highest priority.
pub open spec fn rule_matches(rank: int, paint: int, dom: int, s: ConfidenceSignals) -> bool {
    if rank == 0 {
        paint == 0
    } else if rank == 1 {
        dom <= 20_000
    } else if rank == 2 {
        s.js_errors > 3 || s.unhandled_promise_rejections > 2
    } else if rank == 3 {
        s.failed_resource_count > 5 || s.cors_violations > 2
    } else if rank == 4 {
        s.css_parse_failures > 3
    } else if rank == 5 {
        s.js_execution_time_ms > 5000
    } else {
        false
    }
}

/// The failure that the rule of the given rank reports.
pub open spec fn rule_reason(rank: int, s: ConfidenceSignals) -> FailureReason {
    if rank == 0 {
        FailureReason::ZeroPaint
    } else if rank == 1 {
        FailureReason::SpaPrehydrationStall
    } else if rank == 2 {
        FailureReason::JsCrashLoop { error_count: s.js_errors }
    } else if rank == 3 {
        FailureReason::NetworkStarvation { failed: s.failed_resource_count }
    } else if rank == 4 {
        FailureReason::CssLayoutCollapse
    } else {
        FailureReason::SlowExecution { ms: s.js_execution_time_ms }
    }
}

/// The failure of the first rule, from `rank` on, that matches.
pub open spec fn first_match_from(rank: int, paint: int, dom: int, s: ConfidenceSignals) -> Option<
    FailureReason,
>
    decreases rule_count() - rank,
{
    if rank >= rule_count() {
        None
    } else if rule_matches(rank, paint, dom, s) {
        Some(rule_reason(rank, s))
    } else {
        first_match_from(rank + 1, paint, dom, s)
    }
}

/// The failure recognised in signals with the given paint and DOM scores:
/// that of the first rule that matches, if any does.
pub open spec fn first_match(paint: int, dom: int, s: ConfidenceSignals) -> Option<FailureReason> {
    first_match_from(0, paint, dom, s)
}

/// The failure recognised in the signals, if any: that of the first rule
/// that matches the signals with their own paint and DOM scores.
pub open spec fn failure_of(s: ConfidenceSignals) -> Option<FailureReason> {
    first_match(paint_score(s), dom_score(s), s)
}

/// The decision for an overall score and a recognised failure, against
/// `threshold`: a failure escalates with its reason; without one the page
/// stays if its score reaches the threshold, and escalates as a zero paint
/// if it does not.
pub open spec fn decision_for(
    overall: int,
    reason: Option<FailureReason>,
    threshold: u32,
) -> EngineDecision {
    match reason {
        Some(reason) => EngineDecision::EscalateToLadybird(reason),
        None => if overall >= threshold {
            EngineDecision::StayOnServo
        } else {
            EngineDecision::EscalateToLadybird(FailureReason::ZeroPaint)
        },
    }
}

/// The decision for signals scored against `threshold`: that for their
/// overall score and the failure recognised in them.
pub open spec fn decision_of(s: ConfidenceSignals, threshold: u32) -> EngineDecision {
    decision_for(overall_score(s), failure_of(s), threshold)
}

/// Every sub-score lies between 0 and 1, and so does the overall score.
pub proof fn lemma_scores_in_unit_range(s: ConfidenceSignals)
    ensures
        0 <= paint_score(s) <= SCORE_ONE,
        0 <= dom_score(s) <= SCORE_ONE,
        0 <= js_score(s) <= SCORE_ONE,
        0 <= network_score(s) <= SCORE_ONE,
        0 <= overall_score(s) <= SCORE_ONE,
{
}

/// The overall score loses nothing to rounding: a hundred times it is the
/// weighted sum of the sub-scores.
pub proof fn lemma_overall_is_exact(s: ConfidenceSignals)
    ensures
        100 * overall_score(s) == weighted_sum(s),
{
    let pk: int = match s.first_paint_ms {
        None => 0,
        Some(ms) => if s.paint_element_count == 0 {
            100
        } else if ms > 8000 {
            300
        } else if ms > 3000 {
            600
        } else {
            600 + 4 * least(s.paint_element_count as int, 100)
        },
    };
    let dk: int = if s.dom_element_count < 5 && s.body_text_length < 50 {
        200
    } else if s.dom_element_count < 20 {
        500
    } else {
        least(500 + 5 * s.dom_element_count, 1000)
    };
    let jk: int = if js_penalty(s) >= SCORE_ONE {
        0
    } else {
        1000 - (150 * s.unhandled_promise_rejections + 50 * s.console_error_count + 100
            * s.js_errors)
    };
    let nk: int = 1000 - (least(50 * s.pending_requests_at_sample, 300) + least(
        100 * s.cors_violations,
        400,
    ) + least(30 * s.failed_resource_count, 200));
    // Each sub-score is a hundred times a whole number, and so is their
    // weighted sum.
    let k = 35 * pk + 30 * dk + 25 * jk + 10 * nk;
    assert(weighted_sum(s) == 100 * k);
    assert((100 * k) / 100 == k);
}

/// Without a first paint the paint score is 0 and the decision is to
/// escalate for a zero paint, whatever the threshold.
pub proof fn lemma_no_paint_escalates(s: ConfidenceSignals, threshold: u32)
    requires
        s.first_paint_ms is None,
    ensures
        paint_score(s) == 0,
        failure_of(s) == Some(FailureReason::ZeroPaint),
        decision_of(s, threshold) == EngineDecision::EscalateToLadybird(FailureReason::ZeroPaint),
{
}

/// A page that painted something within three seconds but holds fewer than
/// five elements and fewer than fifty characters of text escalates as a
/// stalled single-page application.
pub proof fn lemma_empty_shell_escalates(s: ConfidenceSignals, threshold: u32)
    requires
        s.dom_element_count < 5,
        s.body_text_length < 50,
        s.first_paint_ms matches Some(ms) && ms <= 3000,
        s.paint_element_count >= 1,
    ensures
        decision_of(s, threshold) == EngineDecision::EscalateToLadybird(
            FailureReason::SpaPrehydrationStall,
        ),
{
    reveal_with_fuel(first_match_from, 3);
}

/// The first rule that matches decides the failure reason: a rule wins over
/// every rule of lower priority.
pub proof fn lemma_first_matching_rule_wins(paint: int, dom: int, s: ConfidenceSignals, rank: int)
    requires
        0 <= rank < rule_count(),
        rule_matches(rank, paint, dom, s),
        forall|higher: int| 0 <= higher < rank ==> !rule_matches(higher, paint, dom, s),
    ensures
        first_match(paint, dom, s) == Some(rule_reason(rank, s)),
{
    lemma_first_match_skips(paint, dom, s, 0, rank);
}

/// No reason is given exactly when no rule matches.
pub proof fn lemma_no_rule_no_failure(paint: int, dom: int, s: ConfidenceSignals)
    ensures
        first_match(paint, dom, s) is None <==> (forall|rank: int|
            0 <= rank < rule_count() ==> !rule_matches(rank, paint, dom, s)),
{
    reveal_with_fuel(first_match_from, 8);
}

/// The decision is never to retry, and it is to stay exactly when no failure
/// is recognised and the overall score reaches the threshold.
pub proof fn lemma_decision_stays_or_escalates(
    overall: int,
    reason: Option<FailureReason>,
    threshold: u32,
)
    ensures
        !(decision_for(overall, reason, threshold) is RetryWithPatches),
        decision_for(overall, reason, threshold) is StayOnServo <==> reason is None && overall
            >= threshold,
{
}

proof fn lemma_first_match_skips(paint: int, dom: int, s: ConfidenceSignals, from: int, rank: int)
    requires
        0 <= from <= rank < rule_count(),
        rule_matches(rank, paint, dom, s),
        forall|higher: int| from <= higher < rank ==> !rule_matches(higher, paint, dom, s),
    ensures
        first_match_from(from, paint, dom, s) == Some(rule_reason(rank, s)),
    decreases rank - from,
{
    if from < rank {
        lemma_first_match_skips(paint, dom, s, from + 1, rank);
    }
}

impl Default for ConfidenceScorer {
    fn default() -> (r: Self)
        ensures
            r.escalation_threshold == ESCALATION_THRESHOLD,
    {
        ConfidenceScorer::new()
    }
}

impl ConfidenceScorer {
    /// A scorer with the threshold 0.60.
    pub fn new() -> (r: Self)
        ensures
            r.escalation_threshold == ESCALATION_THRESHOLD,
    {
        ConfidenceScorer { escalation_threshold: ESCALATION_THRESHOLD }
    }

    /// A scorer with a threshold of the caller's choice, in score units.
    pub fn with_threshold(threshold: u32) -> (r: Self)
        ensures
            r.escalation_threshold == threshold,
    {
        ConfidenceScorer { escalation_threshold: threshold }
    }

    /// Scores the signals and decides.
    pub fn score(&self, signals: &ConfidenceSignals) -> (r: ConfidenceReport)
        ensures
            r.paint_score == paint_score(*signals),
            r.dom_score == dom_score(*signals),
            r.js_score == js_score(*signals),
            r.network_score == network_score(*signals),
            r.overall == overall_score(*signals),
            100 * r.overall == weighted_sum(*signals),
            r.failure_reason == failure_of(*signals),
            r.decision == decision_of(*signals, self.escalation_threshold),
            r.paint_score <= SCORE_ONE,
            r.dom_score <= SCORE_ONE,
            r.js_score <= SCORE_ONE,
            r.network_score <= SCORE_ONE,
            r.overall <= SCORE_ONE,
    {
        let paint = self.score_paint(signals);
        let dom = self.score_dom(signals);
        let js = self.score_js(signals);
        let network = self.score_network(signals);
        proof {
            lemma_overall_is_exact(*signals);
        }
        let overall: u32 = (paint * 35 + dom * 30 + js * 25 + network * 10) / 100;
        let failure_reason = self.classify_failure(signals, paint, dom, js);
        let decision = self.decide(overall, &failure_reason, signals);
        ConfidenceReport {
            paint_score: paint,
            dom_score: dom,
            js_score: js,
            network_score: network,
            overall,
            failure_reason,
            decision,
        }
    }

    fn score_paint(&self, signals: &ConfidenceSignals) -> (r: u32)
        ensures
            r == paint_score(*signals),
    {
        match signals.first_paint_ms {
            None => 0,
            Some(ms) => {
                if signals.paint_element_count == 0 {
                    10_000
                } else if ms > 8000 {
                    30_000
                } else if ms > 3000 {
                    60_000
                } else {
                    let counted: u32 = if signals.paint_element_count >= 100 {
                        100
                    } else {
                        signals.paint_element_count as u32
                    };
                    60_000 + 400 * counted
                }
            },
        }
    }

    fn score_dom(&self, signals: &ConfidenceSignals) -> (r: u32)
        ensures
            r == dom_score(*signals),
    {
        if signals.dom_element_count < 5 && signals.body_text_length < 50 {
            return 20_000;
        }
        if signals.dom_element_count < 20 {
            return 50_000;
        }
        if signals.dom_element_count >= 100 {
            SCORE_ONE
        } else {
            50_000 + 500 * (signals.dom_element_count as u32)
        }
    }

    fn score_js(&self, signals: &ConfidenceSignals) -> (r: u32)
        ensures
            r == js_score(*signals),
    {
        let penalty: u64 = 15_000 * (signals.unhandled_promise_rejections as u64) + 5_000 * (
        signals.console_error_count as u64) + 10_000 * (signals.js_errors as u64);
        if penalty >= SCORE_ONE as u64 {
            0
        } else {
            SCORE_ONE - penalty as u32
        }
    }

    fn score_network(&self, signals: &ConfidenceSignals) -> (r: u32)
        ensures
            r == network_score(*signals),
    {
        let pending: u32 = if signals.pending_requests_at_sample >= 6 {
            30_000
        } else {
            5_000 * signals.pending_requests_at_sample
        };
        let cors: u32 = if signals.cors_violations >= 4 {
            40_000
        } else {
            10_000 * signals.cors_violations
        };
        let failed: u32 = if signals.failed_resource_count >= 7 {
            20_000
        } else {
            3_000 * signals.failed_resource_count
        };
        SCORE_ONE - pending - cors - failed
    }

    /// Recognises a failure in signals with the given paint and DOM scores:
    /// the six rules are tried in their order, and the first that matches
    /// gives the reason.
    fn classify_failure(&self, signals: &ConfidenceSignals, paint: u32, dom: u32, _js: u32) -> (r:
        Option<FailureReason>)
        ensures
            r == first_match(paint as int, dom as int, *signals),
    {
        proof {
            reveal_with_fuel(first_match_from, 8);
        }
        if paint == 0 {
            return Some(FailureReason::ZeroPaint);
        }
        if dom <= 20_000 {
            return Some(FailureReason::SpaPrehydrationStall);
        }
        if signals.js_errors > 3 || signals.unhandled_promise_rejections > 2 {
            return Some(FailureReason::JsCrashLoop { error_count: signals.js_errors });
        }
        if signals.failed_resource_count > 5 || signals.cors_violations > 2 {
            return Some(FailureReason::NetworkStarvation { failed: signals.failed_resource_count });
        }
        if signals.css_parse_failures > 3 {
            return Some(FailureReason::CssLayoutCollapse);
        }
        if signals.js_execution_time_ms > 5000 {
            return Some(FailureReason::SlowExecution { ms: signals.js_execution_time_ms });
        }
        None
    }

    /// Decides from an overall score and a recognised failure, against the
    /// scorer's threshold.
    fn decide(&self, overall: u32, reason: &Option<FailureReason>, signals: &ConfidenceSignals) -> (r:
        EngineDecision)
        ensures
            r == decision_for(overall as int, *reason, self.escalation_threshold),
    {
        match reason {
            Some(reason) => EngineDecision::EscalateToLadybird(*reason),
            None => {
                if overall >= self.escalation_threshold {
                    EngineDecision::StayOnServo
                } else {
                    EngineDecision::EscalateToLadybird(FailureReason::ZeroPaint)
                }
            },
        }
    }
}

} // verus!
