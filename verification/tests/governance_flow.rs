use dao::{
    create_proposal, execute_proposal, proposal_passes, vote, CreateProposal, ErrorCode,
    ExecuteProposal, Member, Proposal, ProposalStatus, ProposalType, Pubkey, State, Vote,
    VoteRecord, GENESIS_COMPETENCE, GENESIS_PRESENCE, SCALING_FACTOR,
};

const OPENED: i64 = 5_000;
const CLOSES: i64 = 9_000;

fn key(tag: u8) -> Pubkey {
    Pubkey::new_from_array([tag; 32])
}

fn founded() -> State {
    State {
        authority: key(9),
        total_presence: 3 * GENESIS_PRESENCE,
        total_competence: 3 * GENESIS_COMPETENCE,
        active_members: 3,
        genesis_count: 3,
        event_counter: 4,
        proposal_counter: 6,
    }
}

fn frozen() -> State {
    State { active_members: 2, ..founded() }
}

fn genesis(tag: u8) -> Member {
    Member {
        authority: key(tag),
        presence_score: GENESIS_PRESENCE,
        competence_score: GENESIS_COMPETENCE,
        is_active: true,
        is_genesis: true,
        joined_at: 10,
    }
}

fn inactive(tag: u8) -> Member {
    Member { is_active: false, ..genesis(tag) }
}

fn proposal(proposal_type: ProposalType) -> Proposal {
    Proposal {
        id: 6,
        proposer: key(1),
        title: String::from("budget"),
        description: String::from("spend less"),
        proposal_type,
        votes_for: 0,
        votes_against: 0,
        total_power_snapshot: SCALING_FACTOR as u128,
        created_at: OPENED,
        voting_ends_at: CLOSES,
        status: ProposalStatus::Active,
    }
}

fn tallied(
    proposal_type: ProposalType,
    votes_for: u128,
    votes_against: u128,
    total_power_snapshot: u128,
) -> Proposal {
    Proposal { votes_for, votes_against, total_power_snapshot, ..proposal(proposal_type) }
}

fn stale_proposal() -> Proposal {
    Proposal {
        id: 99,
        proposer: key(0),
        title: String::from("old"),
        description: String::from("old"),
        proposal_type: ProposalType::Operational,
        votes_for: 5,
        votes_against: 6,
        total_power_snapshot: 7,
        created_at: -1,
        voting_ends_at: -1,
        status: ProposalStatus::Cancelled,
    }
}

fn blank_vote() -> VoteRecord {
    VoteRecord { voter: key(0), proposal_id: 0, support: false, weight: 0, has_voted: false }
}

fn proposing(state: State, member: Member) -> CreateProposal {
    CreateProposal { state, proposal: stale_proposal(), member, proposer: member.authority }
}

fn ballot(state: State, proposal: Proposal, member: Member) -> Vote {
    Vote { state, proposal, member, vote_record: blank_vote(), voter: member.authority }
}

fn settling(state: State, proposal: Proposal) -> ExecuteProposal {
    ExecuteProposal { state, proposal, executor: key(3) }
}

fn settle(proposal: Proposal) -> ProposalStatus {
    let mut ctx = settling(founded(), proposal);
    assert_eq!(execute_proposal(&mut ctx, CLOSES), Ok(()));
    ctx.proposal.status
}

#[test]
fn new_proposal_is_active_and_empty() {
    let mut ctx = proposing(founded(), genesis(1));
    let result = create_proposal(
        &mut ctx,
        OPENED,
        String::from("budget"),
        String::from("spend less"),
        ProposalType::Critical,
        4_000,
    );
    assert_eq!(result, Ok(()));
    assert_eq!(ctx.proposal, proposal(ProposalType::Critical));
    assert_eq!(ctx.proposal.total_power_snapshot, 1_000_000_000);
    assert_eq!(ctx.state, State { proposal_counter: 7, ..founded() });
    assert_eq!(ctx.member, genesis(1));
    assert_eq!(ctx.proposer, key(1));
}

#[test]
fn new_proposal_keeps_its_type_and_texts() {
    let mut ctx = proposing(founded(), genesis(2));
    let result = create_proposal(
        &mut ctx,
        OPENED,
        String::from("dates"),
        String::from("meet on mondays"),
        ProposalType::Operational,
        0,
    );
    assert_eq!(result, Ok(()));
    assert_eq!(ctx.proposal.proposal_type, ProposalType::Operational);
    assert_eq!(ctx.proposal.title, "dates");
    assert_eq!(ctx.proposal.description, "meet on mondays");
    assert_eq!(ctx.proposal.proposer, key(2));
    assert_eq!(ctx.proposal.voting_ends_at, OPENED);
    assert_eq!(ctx.proposal.created_at, OPENED);
}

#[test]
fn snapshot_is_zero_without_totals() {
    let mut ctx = proposing(State { total_presence: 0, ..founded() }, genesis(1));
    let result = create_proposal(
        &mut ctx,
        OPENED,
        String::from("t"),
        String::from("d"),
        ProposalType::Critical,
        10,
    );
    assert_eq!(result, Ok(()));
    assert_eq!(ctx.proposal.total_power_snapshot, 0);
}

#[test]
fn voting_period_may_be_negative() {
    let mut ctx = proposing(founded(), genesis(1));
    let result = create_proposal(
        &mut ctx,
        OPENED,
        String::from("t"),
        String::from("d"),
        ProposalType::Critical,
        -6_000,
    );
    assert_eq!(result, Ok(()));
    assert_eq!(ctx.proposal.voting_ends_at, -1_000);
}

#[test]
fn proposal_is_refused_in_order() {
    let mut ctx = proposing(frozen(), inactive(1));
    let before = ctx.clone();
    let result = create_proposal(
        &mut ctx,
        i64::MAX,
        String::from("t"),
        String::from("d"),
        ProposalType::Critical,
        1,
    );
    assert_eq!(result, Err(ErrorCode::DaoShutdown));
    assert_eq!(ctx, before);

    let mut ctx = proposing(founded(), inactive(1));
    let before = ctx.clone();
    let result = create_proposal(
        &mut ctx,
        i64::MAX,
        String::from("t"),
        String::from("d"),
        ProposalType::Critical,
        1,
    );
    assert_eq!(result, Err(ErrorCode::MemberNotActive));
    assert_eq!(ctx, before);
}

#[test]
fn proposal_is_refused_on_arithmetic_faults() {
    let mut ctx = proposing(founded(), genesis(1));
    let before = ctx.clone();
    let result = create_proposal(
        &mut ctx,
        i64::MAX,
        String::from("t"),
        String::from("d"),
        ProposalType::Critical,
        1,
    );
    assert_eq!(result, Err(ErrorCode::ArithmeticOverflow));
    assert_eq!(ctx, before);

    let result = create_proposal(
        &mut ctx,
        i64::MIN,
        String::from("t"),
        String::from("d"),
        ProposalType::Critical,
        -1,
    );
    assert_eq!(result, Err(ErrorCode::ArithmeticOverflow));
    assert_eq!(ctx, before);

    let mut ctx = proposing(State { proposal_counter: u64::MAX, ..founded() }, genesis(1));
    let before = ctx.clone();
    let result = create_proposal(
        &mut ctx,
        OPENED,
        String::from("t"),
        String::from("d"),
        ProposalType::Critical,
        1,
    );
    assert_eq!(result, Err(ErrorCode::ArithmeticOverflow));
    assert_eq!(ctx, before);
}

#[test]
fn three_equal_members_vote_with_a_ninth_each() {
    let mut current = proposal(ProposalType::Critical);
    let mut total: u128 = 0;
    for tag in 1..=3u8 {
        let mut ctx = ballot(founded(), current.clone(), genesis(tag));
        assert_eq!(vote(&mut ctx, OPENED + tag as i64, true), Ok(()));
        assert_eq!(
            ctx.vote_record,
            VoteRecord {
                voter: key(tag),
                proposal_id: 6,
                support: true,
                weight: 111_111_111,
                has_voted: true,
            }
        );
        total += ctx.vote_record.weight;
        assert_eq!(ctx.proposal.votes_for, total);
        assert_eq!(ctx.proposal.votes_against, 0);
        assert_eq!(ctx.state, founded());
        assert_eq!(ctx.member, genesis(tag));
        current = ctx.proposal;
    }
    assert_eq!(total, 333_333_333);
    assert_eq!(current, tallied(ProposalType::Critical, 333_333_333, 0, 1_000_000_000));
    assert_eq!(settle(current), ProposalStatus::Rejected);
}

#[test]
fn vote_against_goes_to_the_other_tally() {
    let start = tallied(ProposalType::Operational, 40, 2, 1_000_000_000);
    let mut ctx = ballot(founded(), start, genesis(2));
    assert_eq!(vote(&mut ctx, CLOSES - 1, false), Ok(()));
    assert_eq!(ctx.proposal, tallied(ProposalType::Operational, 40, 111_111_113, 1_000_000_000));
    assert_eq!(
        ctx.vote_record,
        VoteRecord {
            voter: key(2),
            proposal_id: 6,
            support: false,
            weight: 111_111_111,
            has_voted: true,
        }
    );
}

#[test]
fn weight_follows_the_ledger_of_the_moment() {
    let state = State {
        total_presence: 4 * GENESIS_PRESENCE,
        total_competence: 2 * GENESIS_COMPETENCE,
        ..founded()
    };
    let mut ctx = ballot(state, proposal(ProposalType::Critical), genesis(1));
    assert_eq!(vote(&mut ctx, OPENED, true), Ok(()));
    assert_eq!(ctx.vote_record.weight, 125_000_000);
    assert_eq!(ctx.proposal.votes_for, 125_000_000);
    assert_eq!(ctx.proposal.total_power_snapshot, 1_000_000_000);
}

#[test]
fn second_vote_is_refused() {
    let mut ctx = ballot(founded(), proposal(ProposalType::Critical), genesis(1));
    assert_eq!(vote(&mut ctx, OPENED, true), Ok(()));
    let before = ctx.clone();
    assert_eq!(vote(&mut ctx, OPENED + 1, true), Err(ErrorCode::AlreadyVoted));
    assert_eq!(ctx, before);
    assert_eq!(vote(&mut ctx, OPENED + 1, false), Err(ErrorCode::AlreadyVoted));
    assert_eq!(ctx, before);
    assert_eq!(ctx.proposal.votes_for, 111_111_111);
}

#[test]
fn vote_is_refused_in_order() {
    let mut closed = proposal(ProposalType::Critical);
    closed.status = ProposalStatus::Passed;
    let cast = VoteRecord { has_voted: true, ..blank_vote() };
    let broke = Member { presence_score: 0, ..genesis(1) };

    let mut ctx = ballot(frozen(), closed.clone(), inactive(1));
    ctx.vote_record = cast;
    let before = ctx.clone();
    assert_eq!(vote(&mut ctx, CLOSES, true), Err(ErrorCode::DaoShutdown));
    assert_eq!(ctx, before);

    let mut ctx = ballot(founded(), closed.clone(), inactive(1));
    ctx.vote_record = cast;
    let before = ctx.clone();
    assert_eq!(vote(&mut ctx, CLOSES, true), Err(ErrorCode::MemberNotActive));
    assert_eq!(ctx, before);

    let mut ctx = ballot(founded(), closed, broke);
    ctx.vote_record = cast;
    let before = ctx.clone();
    assert_eq!(vote(&mut ctx, CLOSES, true), Err(ErrorCode::ProposalNotActive));
    assert_eq!(ctx, before);

    let mut ctx = ballot(founded(), proposal(ProposalType::Critical), broke);
    ctx.vote_record = cast;
    let before = ctx.clone();
    assert_eq!(vote(&mut ctx, CLOSES, true), Err(ErrorCode::VotingPeriodEnded));
    assert_eq!(vote(&mut ctx, CLOSES + 1, true), Err(ErrorCode::VotingPeriodEnded));
    assert_eq!(ctx, before);

    assert_eq!(vote(&mut ctx, CLOSES - 1, true), Err(ErrorCode::AlreadyVoted));
    assert_eq!(ctx, before);

    let mut ctx = ballot(founded(), proposal(ProposalType::Critical), broke);
    let before = ctx.clone();
    assert_eq!(vote(&mut ctx, CLOSES - 1, true), Err(ErrorCode::InsufficientReputation));
    assert_eq!(ctx, before);
}

#[test]
fn vote_is_refused_for_every_settled_status() {
    for status in [ProposalStatus::Passed, ProposalStatus::Rejected, ProposalStatus::Cancelled] {
        let mut settled = proposal(ProposalType::Operational);
        settled.status = status;
        let mut ctx = ballot(founded(), settled, genesis(1));
        let before = ctx.clone();
        assert_eq!(vote(&mut ctx, OPENED, true), Err(ErrorCode::ProposalNotActive));
        assert_eq!(ctx, before);
    }
}

#[test]
fn vote_without_weight_is_refused() {
    let state = State { total_competence: 0, ..founded() };
    let mut ctx = ballot(state, proposal(ProposalType::Critical), genesis(1));
    assert_eq!(vote(&mut ctx, OPENED, true), Err(ErrorCode::InsufficientReputation));

    let state = State { total_presence: u64::MAX, total_competence: u64::MAX, ..founded() };
    let tiny = Member { presence_score: 1, competence_score: 1, ..genesis(1) };
    let mut ctx = ballot(state, proposal(ProposalType::Critical), tiny);
    assert_eq!(vote(&mut ctx, OPENED, false), Err(ErrorCode::InsufficientReputation));
}

#[test]
fn vote_is_refused_when_the_tally_overflows() {
    let full = tallied(ProposalType::Critical, u128::MAX - 111_111_110, 0, 1_000_000_000);
    let mut ctx = ballot(founded(), full.clone(), genesis(1));
    let before = ctx.clone();
    assert_eq!(vote(&mut ctx, OPENED, true), Err(ErrorCode::ArithmeticOverflow));
    assert_eq!(ctx, before);
    assert_eq!(vote(&mut ctx, OPENED, false), Ok(()));
    assert_eq!(ctx.proposal.votes_against, 111_111_111);

    let brim = tallied(ProposalType::Critical, u128::MAX - 111_111_111, 0, 1_000_000_000);
    let mut ctx = ballot(founded(), brim, genesis(1));
    assert_eq!(vote(&mut ctx, OPENED, true), Ok(()));
    assert_eq!(ctx.proposal.votes_for, u128::MAX);

    let full = tallied(ProposalType::Critical, 0, u128::MAX, 1_000_000_000);
    let mut ctx = ballot(founded(), full, genesis(1));
    let before = ctx.clone();
    assert_eq!(vote(&mut ctx, OPENED, false), Err(ErrorCode::ArithmeticOverflow));
    assert_eq!(ctx, before);
}

#[test]
fn critical_needs_more_than_half_of_the_snapshot() {
    for snapshot in [0u128, 1, 2, 7, 10, 1_000_000_000, 999_999_999, u128::MAX] {
        let half = snapshot / 2;
        assert_eq!(
            settle(tallied(ProposalType::Critical, half, 0, snapshot)),
            ProposalStatus::Rejected
        );
        assert_eq!(
            settle(tallied(ProposalType::Critical, half + 1, u128::MAX, snapshot)),
            ProposalStatus::Passed
        );
        assert!(!proposal_passes(&tallied(ProposalType::Critical, half, 0, snapshot)));
        assert!(proposal_passes(&tallied(ProposalType::Critical, half + 1, 0, snapshot)));
    }
}

#[test]
fn critical_ignores_votes_against() {
    assert_eq!(
        settle(tallied(ProposalType::Critical, 500_000_001, 900_000_000, 1_000_000_000)),
        ProposalStatus::Passed
    );
    assert_eq!(
        settle(tallied(ProposalType::Critical, 500_000_000, 0, 1_000_000_000)),
        ProposalStatus::Rejected
    );
    assert_eq!(
        settle(tallied(ProposalType::Critical, 666_666_666, 0, 1_000_000_000)),
        ProposalStatus::Passed
    );
    assert_eq!(
        settle(tallied(ProposalType::Critical, 333_333_333, 0, 1_000_000_000)),
        ProposalStatus::Rejected
    );
}

#[test]
fn operational_needs_more_for_than_against() {
    for votes in [0u128, 1, 333_333_333, u128::MAX - 1] {
        assert_eq!(
            settle(tallied(ProposalType::Operational, votes, votes, 1_000_000_000)),
            ProposalStatus::Rejected
        );
        assert_eq!(
            settle(tallied(ProposalType::Operational, votes + 1, votes, 1_000_000_000)),
            ProposalStatus::Passed
        );
        assert_eq!(
            settle(tallied(ProposalType::Operational, votes, votes + 1, 1_000_000_000)),
            ProposalStatus::Rejected
        );
    }
    assert!(proposal_passes(&tallied(ProposalType::Operational, 1, 0, u128::MAX)));
    assert!(!proposal_passes(&tallied(ProposalType::Operational, 0, 0, 0)));
}

#[test]
fn settling_changes_the_status_only() {
    let start = tallied(ProposalType::Operational, 9, 4, 1_000_000_000);
    let mut ctx = settling(founded(), start.clone());
    assert_eq!(execute_proposal(&mut ctx, CLOSES), Ok(()));
    assert_eq!(ctx.proposal, Proposal { status: ProposalStatus::Passed, ..start });
    assert_eq!(ctx.state, founded());
    assert_eq!(ctx.executor, key(3));
}

#[test]
fn settling_twice_is_refused() {
    for proposal_type in [ProposalType::Critical, ProposalType::Operational] {
        for votes_for in [0u128, 600_000_000] {
            let mut ctx = settling(founded(), tallied(proposal_type, votes_for, 5, 1_000_000_000));
            assert_eq!(execute_proposal(&mut ctx, CLOSES), Ok(()));
            let settled = ctx.clone();
            assert_ne!(settled.proposal.status, ProposalStatus::Active);
            assert_eq!(execute_proposal(&mut ctx, CLOSES), Err(ErrorCode::ProposalNotActive));
            assert_eq!(ctx, settled);
            assert_eq!(execute_proposal(&mut ctx, i64::MAX), Err(ErrorCode::ProposalNotActive));
            assert_eq!(ctx, settled);

            ctx.proposal.votes_for = u128::MAX;
            ctx.proposal.votes_against = 0;
            let changed = ctx.clone();
            assert_eq!(execute_proposal(&mut ctx, CLOSES), Err(ErrorCode::ProposalNotActive));
            assert_eq!(ctx, changed);

            ctx.state = frozen();
            assert_eq!(execute_proposal(&mut ctx, CLOSES), Err(ErrorCode::DaoShutdown));
            assert_eq!(ctx.proposal, changed.proposal);
        }
    }
}

#[test]
fn settling_is_refused_in_order() {
    let mut cancelled = proposal(ProposalType::Critical);
    cancelled.status = ProposalStatus::Cancelled;

    let mut ctx = settling(frozen(), cancelled.clone());
    let before = ctx.clone();
    assert_eq!(execute_proposal(&mut ctx, CLOSES - 1), Err(ErrorCode::DaoShutdown));
    assert_eq!(ctx, before);

    let mut ctx = settling(founded(), cancelled);
    let before = ctx.clone();
    assert_eq!(execute_proposal(&mut ctx, CLOSES - 1), Err(ErrorCode::ProposalNotActive));
    assert_eq!(ctx, before);

    let mut ctx = settling(founded(), proposal(ProposalType::Critical));
    let before = ctx.clone();
    assert_eq!(execute_proposal(&mut ctx, CLOSES - 1), Err(ErrorCode::VotingPeriodNotEnded));
    assert_eq!(ctx, before);
    assert_eq!(execute_proposal(&mut ctx, i64::MIN), Err(ErrorCode::VotingPeriodNotEnded));
    assert_eq!(ctx, before);
    assert_eq!(execute_proposal(&mut ctx, CLOSES), Ok(()));
    assert_eq!(ctx.proposal.status, ProposalStatus::Rejected);
}

#[test]
fn window_closes_for_votes_as_it_opens_for_settling() {
    let mut voting = ballot(founded(), proposal(ProposalType::Operational), genesis(1));
    let mut settlement = settling(founded(), proposal(ProposalType::Operational));
    assert_eq!(execute_proposal(&mut settlement, CLOSES - 1), Err(ErrorCode::VotingPeriodNotEnded));
    assert_eq!(vote(&mut voting, CLOSES - 1, true), Ok(()));

    let mut voting = ballot(founded(), proposal(ProposalType::Operational), genesis(2));
    assert_eq!(vote(&mut voting, CLOSES, true), Err(ErrorCode::VotingPeriodEnded));
    assert_eq!(execute_proposal(&mut settlement, CLOSES), Ok(()));
}
