//! Delays that vary as a person's do.

use vstd::prelude::*;

use rand::Rng;

verus! {

/// The delay for a base, a variance and a jitter: the base less half the
/// variance, plus the jitter, held between 0 and the maximum of `u64`.
pub open spec fn delay_with(base_ms: u64, variance_ms: u64, jitter_ms: u64) -> u64 {
    let lowered: int = if base_ms >= variance_ms / 2 {
        base_ms - variance_ms / 2
    } else {
        0
    };
    if lowered + jitter_ms > u64::MAX {
        u64::MAX
    } else {
        (lowered + jitter_ms) as u64
    }
}

/// `rand::Rng::gen_range` on the thread's generator, over the numbers from 0
/// to `bound`, both included: some number of that range.
#[verifier::external_body]
fn random_up_to(bound: u64) -> (r: u64)
    ensures
        r <= bound,
{
    rand::thread_rng().gen_range(0..=bound)
}

/// The delay for a base, a variance and a jitter that was drawn already.
pub fn jittered_delay_with(base_ms: u64, variance_ms: u64, jitter_ms: u64) -> (r: u64)
    ensures
        r == delay_with(base_ms, variance_ms, jitter_ms),
{
    base_ms.saturating_sub(variance_ms / 2).saturating_add(jitter_ms)
}

/// A delay around `base_ms`: the base itself without variance, and otherwise
/// the delay for a jitter drawn at random from 0 to the variance.
pub fn jittered_delay_ms(base_ms: u64, variance_ms: u64) -> (r: u64)
    ensures
        variance_ms == 0 ==> r == base_ms,
        exists|jitter_ms: u64|
            jitter_ms <= variance_ms && r == #[trigger] delay_with(base_ms, variance_ms, jitter_ms),
        delay_with(base_ms, variance_ms, 0) <= r <= delay_with(base_ms, variance_ms, variance_ms),
{
    if variance_ms == 0 {
        return base_ms;
    }
    let jitter = random_up_to(variance_ms);
    jittered_delay_with(base_ms, variance_ms, jitter)
}

} // verus!
