use dao::{
    calculate_total_voting_power, calculate_voting_weight, clamp_penalty, credit, slash,
    ErrorCode, Member, Pubkey, State, GHOSTING_PENALTY, LATE_PENALTY, SCALING_FACTOR,
};

fn member_with(presence_score: u64, competence_score: u64) -> Member {
    Member {
        authority: Pubkey::new_from_array([1; 32]),
        presence_score,
        competence_score,
        is_active: true,
        is_genesis: false,
        joined_at: 0,
    }
}

fn state_with(total_presence: u64, total_competence: u64) -> State {
    State {
        authority: Pubkey::new_from_array([9; 32]),
        total_presence,
        total_competence,
        active_members: 3,
        genesis_count: 3,
        event_counter: 0,
        proposal_counter: 0,
    }
}

#[test]
fn penalty_within_balance_is_taken_in_full() {
    assert_eq!(clamp_penalty(LATE_PENALTY, 3 * SCALING_FACTOR), SCALING_FACTOR);
    assert_eq!(clamp_penalty(5, 5), 5);
    assert_eq!(clamp_penalty(0, 7), 0);
}

#[test]
fn penalty_beyond_balance_takes_the_balance() {
    assert_eq!(clamp_penalty(GHOSTING_PENALTY, SCALING_FACTOR), SCALING_FACTOR);
    assert_eq!(clamp_penalty(GHOSTING_PENALTY, 1), 1);
    assert_eq!(clamp_penalty(u64::MAX, 0), 0);
}

#[test]
fn slash_takes_the_same_amount_from_score_and_total() {
    assert_eq!(
        slash(3 * SCALING_FACTOR, 9 * SCALING_FACTOR, GHOSTING_PENALTY),
        Ok((SCALING_FACTOR, 7 * SCALING_FACTOR))
    );
    assert_eq!(
        slash(SCALING_FACTOR, 9 * SCALING_FACTOR, GHOSTING_PENALTY),
        Ok((0, 8 * SCALING_FACTOR))
    );
    assert_eq!(slash(0, 4, 10), Ok((0, 4)));
    assert_eq!(slash(10, 10, 10), Ok((0, 0)));
}

#[test]
fn slash_is_refused_when_the_total_lacks_the_amount() {
    assert_eq!(slash(5, 4, 10), Err(ErrorCode::SlashingOverflow));
    assert_eq!(slash(5, 2, 3), Err(ErrorCode::SlashingOverflow));
    assert_eq!(slash(5, 3, 3), Ok((2, 0)));
}

#[test]
fn credit_adds_the_same_amount_to_score_and_total() {
    assert_eq!(credit(3, 9, 1), Ok((4, 10)));
    assert_eq!(credit(0, 0, 0), Ok((0, 0)));
    assert_eq!(credit(u64::MAX - 1, u64::MAX - 1, 1), Ok((u64::MAX, u64::MAX)));
}

#[test]
fn credit_is_refused_when_a_sum_overflows() {
    assert_eq!(credit(u64::MAX, 0, 1), Err(ErrorCode::ArithmeticOverflow));
    assert_eq!(credit(0, u64::MAX, 1), Err(ErrorCode::ArithmeticOverflow));
    assert_eq!(credit(1, 1, u64::MAX), Err(ErrorCode::ArithmeticOverflow));
}

#[test]
fn weight_of_one_of_three_equal_genesis_members() {
    let member = member_with(3 * SCALING_FACTOR, 10 * SCALING_FACTOR);
    let state = state_with(9 * SCALING_FACTOR, 30 * SCALING_FACTOR);
    let weight = calculate_voting_weight(&member, &state);
    assert_eq!(weight, 111_111_111);
    assert_eq!(weight * 3, 333_333_333);
}

#[test]
fn weight_of_a_sole_member_is_one_unit() {
    let member = member_with(5 * SCALING_FACTOR, 2 * SCALING_FACTOR);
    let state = state_with(5 * SCALING_FACTOR, 2 * SCALING_FACTOR);
    assert_eq!(calculate_voting_weight(&member, &state), SCALING_FACTOR as u128);
}

#[test]
fn weight_is_rounded_down() {
    let member = member_with(1, 1);
    let state = state_with(3, 1);
    assert_eq!(calculate_voting_weight(&member, &state), 333_333_333);
    let state = state_with(7, 3);
    assert_eq!(calculate_voting_weight(&member, &state), 47_619_047);
    let member = member_with(2, 5);
    assert_eq!(calculate_voting_weight(&member, &state), 476_190_476);
}

#[test]
fn weight_is_zero_without_totals_or_scores() {
    let member = member_with(3, 3);
    assert_eq!(calculate_voting_weight(&member, &state_with(0, 5)), 0);
    assert_eq!(calculate_voting_weight(&member, &state_with(5, 0)), 0);
    assert_eq!(calculate_voting_weight(&member, &state_with(0, 0)), 0);
    assert_eq!(calculate_voting_weight(&member_with(0, 3), &state_with(5, 5)), 0);
    assert_eq!(calculate_voting_weight(&member_with(3, 0), &state_with(5, 5)), 0);
}

#[test]
fn weight_below_one_part_in_a_unit_is_zero() {
    let member = member_with(1, 1);
    let state = state_with(1_000_000, 1_000_000);
    assert_eq!(calculate_voting_weight(&member, &state), 0);
    let state = state_with(1_000_000, 1_000);
    assert_eq!(calculate_voting_weight(&member, &state), 1);
}

#[test]
fn weight_numerator_stops_at_the_largest_value() {
    let member = member_with(u64::MAX, u64::MAX);
    let state = state_with(u64::MAX, u64::MAX);
    assert_eq!(calculate_voting_weight(&member, &state), 1);
    let state = state_with(1, 1);
    assert_eq!(calculate_voting_weight(&member, &state), u128::MAX);
    let state = state_with(2, 1);
    assert_eq!(calculate_voting_weight(&member, &state), u128::MAX / 2);
}

#[test]
fn weight_of_the_largest_product_that_fits() {
    let member = member_with(1 << 49, 1 << 49);
    let state = state_with(1 << 49, 1 << 50);
    assert_eq!(calculate_voting_weight(&member, &state), 500_000_000);
}

#[test]
fn total_power_is_one_unit_while_both_totals_are_positive() {
    assert_eq!(calculate_total_voting_power(&state_with(1, 1)), 1_000_000_000);
    assert_eq!(
        calculate_total_voting_power(&state_with(9 * SCALING_FACTOR, 30 * SCALING_FACTOR)),
        SCALING_FACTOR as u128
    );
    assert_eq!(calculate_total_voting_power(&state_with(0, 1)), 0);
    assert_eq!(calculate_total_voting_power(&state_with(1, 0)), 0);
    assert_eq!(calculate_total_voting_power(&state_with(0, 0)), 0);
}
