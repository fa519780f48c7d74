//! Per-user sliding-window cost accounting. A user's `rate_line` is the
//! future instant at which accumulated usage debt clears; `0` is a sentinel
//! meaning "unlimited". A request is rejected, and the line left untouched,
//! when admitting it would push the line past `now + window`.

use vstd::prelude::*;

verus! {

/// The outcome of asking whether one request may proceed.
#[derive(Clone, Copy, Debug, PartialEq, Eq, Structural)]
pub enum RateDecision {
    /// The request may proceed; `new_rate_line` is the user's line after it.
    Allow { new_rate_line: u64 },
    /// The request is rejected and the line left untouched; `retry_after`
    /// is a positive wait hint in seconds.
    Reject { retry_after: u64 },
}

/// Where the user's line would move if this request were admitted: an
/// unlimited user stays at the sentinel, a drained bucket restarts at `now`,
/// and otherwise debt accumulates.
pub open spec fn spec_rate_candidate(rate_line: u64, now: u64, add: u64) -> int {
    if rate_line == 0 {
        0
    } else if rate_line < now {
        now + add
    } else {
        rate_line + add
    }
}

/// The decision for one request, as a mathematical value.
pub open spec fn spec_rate_decision(rate_line: u64, now: u64, window: u64, add: u64) -> RateDecision {
    let candidate = spec_rate_candidate(rate_line, now, add);
    if rate_line == 0 {
        RateDecision::Allow { new_rate_line: 0 }
    } else if candidate > now + window {
        RateDecision::Reject { retry_after: (candidate - (now + window)) as u64 }
    } else {
        RateDecision::Allow { new_rate_line: candidate as u64 }
    }
}

/// Decides one request for a user whose debt clears at `rate_line`.
///
/// `window` is the burst allowance in seconds and `add` the cost of this
/// request (`cost_units * sec_per_cost`). On `Allow` the caller stores the
/// returned line; on `Reject` the line is untouched and the hint is positive.
pub fn check_rate(rate_line: u64, now: u64, window: u64, add: u64) -> (r: RateDecision)
    requires
        now + window <= u64::MAX,
        now + add <= u64::MAX,
        rate_line + add <= u64::MAX,
    ensures
        r == spec_rate_decision(rate_line, now, window, add),
        rate_line == 0 ==> r == (RateDecision::Allow { new_rate_line: 0u64 }),
        r matches RateDecision::Reject { retry_after } ==> retry_after > 0,
{
    if rate_line == 0 {
        return RateDecision::Allow { new_rate_line: 0 };
    }
    let candidate: u64 = if rate_line < now {
        now + add
    } else {
        rate_line + add
    };
    let limit_line: u64 = now + window;
    if candidate > limit_line {
        RateDecision::Reject { retry_after: candidate - limit_line }
    } else {
        RateDecision::Allow { new_rate_line: candidate }
    }
}

/// The cost a request adds to a user's line: the model's relative expense
/// times the per-cost recovery time, saturating instead of overflowing.
pub fn request_cost(cost_units: u64, sec_per_cost: u64) -> (r: u64)
    ensures
        cost_units * sec_per_cost <= u64::MAX ==> r == cost_units * sec_per_cost,
        cost_units * sec_per_cost > u64::MAX ==> r == u64::MAX,
{
    cost_units.checked_mul(sec_per_cost).unwrap_or(u64::MAX)
}

/// The line after a whole sequence of requests, each admitted or rejected by
/// [`spec_rate_decision`]; a rejected request leaves the line untouched.
pub open spec fn spec_rate_line_after(rate_line: u64, requests: Seq<(u64, u64, u64)>) -> u64
    decreases requests.len(),
{
    if requests.len() == 0 {
        rate_line
    } else {
        let prior = spec_rate_line_after(rate_line, requests.drop_last());
        let (now, window, add) = requests.last();
        match spec_rate_decision(prior, now, window, add) {
            RateDecision::Allow { new_rate_line } => new_rate_line,
            RateDecision::Reject { .. } => prior,
        }
    }
}

/// Unlimited sentinel: a request from a user whose line is `0` is always
/// allowed and leaves the line at the sentinel — so over any sequence of
/// requests, at any times and costs, such a user is never rejected and every
/// intermediate line is still `0`.
pub proof fn lemma_unlimited_never_rejected(requests: Seq<(u64, u64, u64)>)
    ensures
        forall|now: u64, window: u64, add: u64|
            #[trigger] spec_rate_decision(0, now, window, add) == (RateDecision::Allow {
                new_rate_line: 0u64,
            }),
        forall|i: int|
            0 <= i <= requests.len() ==> spec_rate_line_after(0, #[trigger] requests.take(i)) == 0,
    decreases requests.len(),
{
    if requests.len() > 0 {
        lemma_unlimited_never_rejected(requests.drop_last());
        assert forall|i: int|
            0 <= i <= requests.len() implies spec_rate_line_after(0, #[trigger] requests.take(i))
            == 0 by {
            if i < requests.len() {
                assert(requests.take(i) =~= requests.drop_last().take(i));
            } else {
                assert(requests.take(i) =~= requests);
                assert(requests.drop_last().take(requests.len() - 1) =~= requests.drop_last());
            }
        }
    }
}

} // verus!
