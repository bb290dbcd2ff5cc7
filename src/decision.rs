//! The policy that spreads a budget of resources over a run of opportunities.

use vstd::prelude::*;

verus! {

/// Multiplier that scatters the modulus test of the decision policy.
pub const SCATTER: u128 = 385;

/// Whether `decide` places a resource now, given `remaining` resources and at
/// least `min_remaining_decisions` opportunities still to come.
pub open spec fn decide_spec(remaining: nat, min_remaining_decisions: nat) -> bool {
    if remaining == 0 {
        false
    } else if min_remaining_decisions <= remaining {
        true
    } else {
        (min_remaining_decisions * 385) as int % (min_remaining_decisions / remaining) as int == 0
    }
}

/// Like `decide_spec`, with the urgency divided by `remaining` twice, so that
/// placements come earlier. An urgency of zero places nothing.
pub open spec fn decide_early_spec(remaining: nat, min_remaining_decisions: nat) -> bool {
    if remaining == 0 {
        false
    } else if min_remaining_decisions <= remaining {
        true
    } else {
        let urgentness = min_remaining_decisions / remaining / remaining;
        urgentness != 0 && (min_remaining_decisions * 385) as int % (urgentness as int) == 0
    }
}

/// Decides whether to place one of `remaining` resources now, where at least
/// `min_remaining_decisions` opportunities are left.
pub fn decide(remaining: usize, min_remaining_decisions: usize) -> (r: bool)
    ensures
        r == decide_spec(remaining as nat, min_remaining_decisions as nat),
{
    if remaining == 0 {
        false
    } else if min_remaining_decisions <= remaining {
        true
    } else {
        let urgentness: usize = min_remaining_decisions / remaining;
        assert(urgentness >= 1) by (nonlinear_arith)
            requires
                urgentness == min_remaining_decisions / remaining,
                min_remaining_decisions > remaining,
                remaining > 0,
        ;
        let scaled: u128 = min_remaining_decisions as u128 * SCATTER;
        scaled % (urgentness as u128) == 0
    }
}

/// Decides like `decide`, but with a squared denominator, which favours
/// placing resources early. Where the urgency rounds down to zero it does
/// not place.
pub fn decide_early(remaining: usize, min_remaining_decisions: usize) -> (r: bool)
    ensures
        r == decide_early_spec(remaining as nat, min_remaining_decisions as nat),
{
    if remaining == 0 {
        false
    } else if min_remaining_decisions <= remaining {
        true
    } else {
        let urgentness: usize = min_remaining_decisions / remaining / remaining;
        if urgentness == 0 {
            false
        } else {
            let scaled: u128 = min_remaining_decisions as u128 * SCATTER;
            scaled % (urgentness as u128) == 0
        }
    }
}

} // verus!
