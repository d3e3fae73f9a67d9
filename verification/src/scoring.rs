//! Fixed-point arithmetic of reputation: penalties that stop at zero and
//! the weight of a vote.

use vstd::prelude::*;
use crate::constants::SCALING_FACTOR;
use crate::error::ErrorCode;
use crate::records::{Member, State};

verus! {

/// The amount a penalty actually removes from a balance: the nominal
/// amount, or the whole balance where that is smaller.
pub open spec fn clamped_penalty(nominal: u64, balance: u64) -> u64 {
    if nominal <= balance {
        nominal
    } else {
        balance
    }
}

/// Computes the amount that a penalty of `nominal` removes from `balance`.
pub fn clamp_penalty(nominal: u64, balance: u64) -> (amount: u64)
    ensures
        amount == clamped_penalty(nominal, balance),
{
    if nominal <= balance {
        nominal
    } else {
        balance
    }
}

/// Applies a penalty of `nominal` to a member's `score` and takes the amount
/// actually removed out of `total` as well. Returns the new score and the
/// new total. Refused with `SlashingOverflow` exactly when the total is
/// smaller than the amount to remove; the score itself never goes below
/// zero.
pub fn slash(score: u64, total: u64, nominal: u64) -> (result: Result<(u64, u64), ErrorCode>)
    ensures
        result is Ok <==> total >= clamped_penalty(nominal, score),
        result matches Ok((new_score, new_total)) ==> new_score == score - clamped_penalty(
            nominal,
            score,
        ) && new_total == total - clamped_penalty(nominal, score),
        result matches Err(code) ==> code == ErrorCode::SlashingOverflow,
{
    let amount = clamp_penalty(nominal, score);
    if total < amount {
        Err(ErrorCode::SlashingOverflow)
    } else {
        Ok((score - amount, total - amount))
    }
}

/// Adds `amount` to a member's `score` and to `total`. Returns the new score
/// and the new total. Refused with `ArithmeticOverflow` exactly when either
/// sum leaves the range of the type.
pub fn credit(score: u64, total: u64, amount: u64) -> (result: Result<(u64, u64), ErrorCode>)
    ensures
        result is Ok <==> score + amount <= u64::MAX && total + amount <= u64::MAX,
        result matches Ok((new_score, new_total)) ==> new_score == score + amount && new_total
            == total + amount,
        result matches Err(code) ==> code == ErrorCode::ArithmeticOverflow,
{
    if score > u64::MAX - amount || total > u64::MAX - amount {
        Err(ErrorCode::ArithmeticOverflow)
    } else {
        Ok((score + amount, total + amount))
    }
}

/// The weight of a vote cast by a member with the given scores while the
/// totals are as given: the member's share of presence times the member's
/// share of competence, in fixed-point units, rounded down. It is zero
/// while either total is zero. The numerator is capped at the largest
/// 128-bit value.
pub open spec fn voting_weight(
    presence: u64,
    competence: u64,
    total_presence: u64,
    total_competence: u64,
) -> int {
    if total_presence == 0 || total_competence == 0 {
        0
    } else {
        let numerator = presence * competence * SCALING_FACTOR;
        let capped = if numerator > u128::MAX {
            u128::MAX as int
        } else {
            numerator
        };
        capped / (total_presence * total_competence)
    }
}

/// The total voting power recorded on a new proposal: one unit while both
/// totals are positive, zero otherwise.
pub open spec fn total_voting_power(total_presence: u64, total_competence: u64) -> int {
    if total_presence == 0 || total_competence == 0 {
        0
    } else {
        SCALING_FACTOR as int
    }
}

proof fn product_of_scores_fits(a: u64, b: u64)
    ensures
        0 <= a * b <= u128::MAX,
        a > 0 && b > 0 ==> a * b > 0,
{
    assert(0 <= a * b <= 0xffff_ffff_ffff_ffff * 0xffff_ffff_ffff_ffff) by (nonlinear_arith)
        requires
            0 <= a <= 0xffff_ffff_ffff_ffff,
            0 <= b <= 0xffff_ffff_ffff_ffff,
    ;
    assert(a > 0 && b > 0 ==> a * b > 0) by (nonlinear_arith);
}

/// Multiplies, stopping at the largest value of the type.
fn saturating_mul(a: u128, b: u128) -> (product: u128)
    ensures
        product == if a * b > u128::MAX { u128::MAX as int } else { a * b },
{
    match a.checked_mul(b) {
        Some(product) => product,
        None => u128::MAX,
    }
}

/// Computes the weight of a vote by `member` against the totals in `state`.
pub fn calculate_voting_weight(member: &Member, state: &State) -> (weight: u128)
    ensures
        weight == voting_weight(
            member.presence_score,
            member.competence_score,
            state.total_presence,
            state.total_competence,
        ),
{
    if state.total_presence == 0 || state.total_competence == 0 {
        return 0;
    }
    let p_m = member.presence_score as u128;
    let c_m = member.competence_score as u128;
    let p_tot = state.total_presence as u128;
    let c_tot = state.total_competence as u128;
    let scale = SCALING_FACTOR as u128;
    proof {
        product_of_scores_fits(member.presence_score, member.competence_score);
        product_of_scores_fits(state.total_presence, state.total_competence);
    }
    let numerator = saturating_mul(saturating_mul(p_m, c_m), scale);
    let denominator = saturating_mul(p_tot, c_tot);
    if denominator == 0 {
        0
    } else {
        numerator / denominator
    }
}

/// Computes the total voting power to record on a proposal created while
/// the totals are as in `state`.
pub fn calculate_total_voting_power(state: &State) -> (power: u128)
    ensures
        power == total_voting_power(state.total_presence, state.total_competence),
{
    if state.total_presence == 0 || state.total_competence == 0 {
        0
    } else {
        SCALING_FACTOR as u128
    }
}

/// A penalty never takes more than the balance nor more than its nominal
/// amount. One that is at least the balance takes all of it, which leaves
/// exactly zero; a smaller one is taken in full.
pub proof fn penalty_stops_at_zero(nominal: u64, balance: u64)
    ensures
        clamped_penalty(nominal, balance) <= balance,
        clamped_penalty(nominal, balance) <= nominal,
        nominal >= balance ==> balance - clamped_penalty(nominal, balance) == 0,
        nominal <= balance ==> clamped_penalty(nominal, balance) == nominal,
{
}

/// The weight of a member whose scores are within the totals is at most
/// one unit, and it is never negative.
pub proof fn weight_within_unit(
    presence: u64,
    competence: u64,
    total_presence: u64,
    total_competence: u64,
)
    requires
        presence <= total_presence,
        competence <= total_competence,
    ensures
        0 <= voting_weight(presence, competence, total_presence, total_competence)
            <= SCALING_FACTOR,
{
    if total_presence != 0 && total_competence != 0 {
        let denominator = total_presence * total_competence;
        let numerator = presence * competence * SCALING_FACTOR;
        let capped = if numerator > u128::MAX {
            u128::MAX as int
        } else {
            numerator
        };
        product_of_scores_fits(total_presence, total_competence);
        product_of_scores_fits(presence, competence);
        vstd::arithmetic::mul::lemma_mul_upper_bound(
            presence as int,
            total_presence as int,
            competence as int,
            total_competence as int,
        );
        vstd::arithmetic::mul::lemma_mul_inequality(
            presence * competence,
            denominator,
            SCALING_FACTOR as int,
        );
        assert(0 <= numerator) by (nonlinear_arith)
            requires
                numerator == presence * competence * SCALING_FACTOR,
                0 <= presence * competence,
                SCALING_FACTOR > 0,
        ;
        assert(capped <= denominator * SCALING_FACTOR);
        vstd::arithmetic::div_mod::lemma_div_is_ordered(
            capped,
            denominator * SCALING_FACTOR,
            denominator,
        );
        vstd::arithmetic::div_mod::lemma_div_multiples_vanish(
            SCALING_FACTOR as int,
            denominator,
        );
        vstd::arithmetic::div_mod::lemma_div_is_ordered(0, capped, denominator);
    }
}

} // verus!
