//! Proposals: putting one to the members, voting on it with a weight taken
//! from current reputation, and settling it by the rule of its type.

use vstd::prelude::*;
use crate::constants::SCALING_FACTOR;
use crate::error::{answer, ErrorCode};
use crate::ledger::{balanced, column_sum_bounds, Column};
use crate::pubkey::Pubkey;
use crate::quorum::{has_quorum, quorum_met};
use crate::records::{Member, Proposal, ProposalStatus, ProposalType, State, VoteRecord};
use crate::scoring::{
    calculate_total_voting_power,
    calculate_voting_weight,
    total_voting_power,
    voting_weight,
    weight_within_unit,
};

verus! {

/// Whether a proposal with the given tallies passes. A critical proposal
/// needs more weight in favour than half of the power captured at its
/// creation, the half rounded down; an operational one needs more weight
/// in favour than against.
pub open spec fn passes(
    proposal_type: ProposalType,
    votes_for: u128,
    votes_against: u128,
    total_power_snapshot: u128,
) -> bool {
    match proposal_type {
        ProposalType::Critical => votes_for > total_power_snapshot / 2,
        ProposalType::Operational => votes_for > votes_against,
    }
}

/// The status that settling gives a proposal.
pub open spec fn settled_status(proposal: Proposal) -> ProposalStatus {
    if passes(
        proposal.proposal_type,
        proposal.votes_for,
        proposal.votes_against,
        proposal.total_power_snapshot,
    ) {
        ProposalStatus::Passed
    } else {
        ProposalStatus::Rejected
    }
}

/// Tells whether a proposal passes on its present tallies.
pub fn proposal_passes(proposal: &Proposal) -> (passed: bool)
    ensures
        passed == passes(
            proposal.proposal_type,
            proposal.votes_for,
            proposal.votes_against,
            proposal.total_power_snapshot,
        ),
{
    match proposal.proposal_type {
        ProposalType::Critical => {
            let threshold = proposal.total_power_snapshot / 2;
            proposal.votes_for > threshold
        },
        ProposalType::Operational => proposal.votes_for > proposal.votes_against,
    }
}

/// The records that making a proposal touches.
#[derive(Clone, Debug, PartialEq, Eq)]
pub struct CreateProposal {
    /// The ledger. Its proposal counter is advanced.
    pub state: State,
    /// The new proposal's record. Written.
    pub proposal: Proposal,
    /// The caller's member record. Read.
    pub member: Member,
    /// The caller.
    pub proposer: Pubkey,
}

impl CreateProposal {
    /// Why the proposal is not created, if it is not.
    /// Where several conditions hold, the first one listed decides.
    pub open spec fn rejection(&self, now: i64, voting_period: i64) -> Option<ErrorCode> {
        if !has_quorum(self.state) {
            Some(ErrorCode::DaoShutdown)
        } else if !self.member.is_active {
            Some(ErrorCode::MemberNotActive)
        } else if now + voting_period > i64::MAX || now + voting_period < i64::MIN {
            Some(ErrorCode::ArithmeticOverflow)
        } else if self.state.proposal_counter + 1 > u64::MAX {
            Some(ErrorCode::ArithmeticOverflow)
        } else {
            None
        }
    }

    /// The records after the proposal has been created: it is active, has
    /// no votes, closes `voting_period` after `now`, and carries the total
    /// voting power of the moment.
    pub open spec fn outcome(
        &self,
        now: i64,
        title: String,
        description: String,
        proposal_type: ProposalType,
        voting_period: i64,
    ) -> CreateProposal {
        CreateProposal {
            state: State {
                proposal_counter: (self.state.proposal_counter + 1) as u64,
                ..self.state
            },
            proposal: Proposal {
                id: self.state.proposal_counter,
                proposer: self.member.authority,
                title,
                description,
                proposal_type,
                votes_for: 0,
                votes_against: 0,
                total_power_snapshot: total_voting_power(
                    self.state.total_presence,
                    self.state.total_competence,
                ) as u128,
                created_at: now,
                voting_ends_at: (now + voting_period) as i64,
                status: ProposalStatus::Active,
            },
            member: self.member,
            proposer: self.proposer,
        }
    }
}

/// Puts a proposal to the members under the next free identifier. Voting
/// is open until `voting_period` seconds after `now`.
pub fn create_proposal(
    ctx: &mut CreateProposal,
    now: i64,
    title: String,
    description: String,
    proposal_type: ProposalType,
    voting_period: i64,
) -> (result: Result<(), ErrorCode>)
    ensures
        result == answer(old(ctx).rejection(now, voting_period)),
        old(ctx).rejection(now, voting_period) is None ==> *final(ctx) == old(ctx).outcome(
            now,
            title,
            description,
            proposal_type,
            voting_period,
        ),
        old(ctx).rejection(now, voting_period) is Some ==> *final(ctx) == *old(ctx),
{
    if !quorum_met(&ctx.state) {
        return Err(ErrorCode::DaoShutdown);
    }
    if !ctx.member.is_active {
        return Err(ErrorCode::MemberNotActive);
    }
    let total_power_snapshot = calculate_total_voting_power(&ctx.state);
    let voting_ends_at = match now.checked_add(voting_period) {
        Some(voting_ends_at) => voting_ends_at,
        None => {
            return Err(ErrorCode::ArithmeticOverflow);
        },
    };
    let next_id = match ctx.state.proposal_counter.checked_add(1) {
        Some(next_id) => next_id,
        None => {
            return Err(ErrorCode::ArithmeticOverflow);
        },
    };
    ctx.proposal = Proposal {
        id: ctx.state.proposal_counter,
        proposer: ctx.member.authority,
        title,
        description,
        proposal_type,
        votes_for: 0,
        votes_against: 0,
        total_power_snapshot,
        created_at: now,
        voting_ends_at,
        status: ProposalStatus::Active,
    };
    ctx.state.proposal_counter = next_id;
    Ok(())
}

/// The records that casting a vote touches.
#[derive(Clone, Debug, PartialEq, Eq)]
pub struct Vote {
    /// The ledger. Read.
    pub state: State,
    /// The proposal. The vote's weight is added to one of its tallies.
    pub proposal: Proposal,
    /// The caller's member record. Read.
    pub member: Member,
    /// The record of the caller's vote on the proposal: blank before the
    /// first vote, written by it.
    pub vote_record: VoteRecord,
    /// The caller.
    pub voter: Pubkey,
}

impl Vote {
    /// The weight of the caller's vote: taken from the caller's scores and
    /// the ledger's totals as they are now.
    pub open spec fn weight(&self) -> int {
        voting_weight(
            self.member.presence_score,
            self.member.competence_score,
            self.state.total_presence,
            self.state.total_competence,
        )
    }

    /// The tally that a vote with the given support goes to.
    pub open spec fn tally(&self, support: bool) -> u128 {
        if support {
            self.proposal.votes_for
        } else {
            self.proposal.votes_against
        }
    }

    /// Why the vote is not cast, if it is not.
    /// Where several conditions hold, the first one listed decides.
    pub open spec fn rejection(&self, now: i64, support: bool) -> Option<ErrorCode> {
        if !has_quorum(self.state) {
            Some(ErrorCode::DaoShutdown)
        } else if !self.member.is_active {
            Some(ErrorCode::MemberNotActive)
        } else if self.proposal.status != ProposalStatus::Active {
            Some(ErrorCode::ProposalNotActive)
        } else if now >= self.proposal.voting_ends_at {
            Some(ErrorCode::VotingPeriodEnded)
        } else if self.vote_record.has_voted {
            Some(ErrorCode::AlreadyVoted)
        } else if self.weight() == 0 {
            Some(ErrorCode::InsufficientReputation)
        } else if self.tally(support) + self.weight() > u128::MAX {
            Some(ErrorCode::ArithmeticOverflow)
        } else {
            None
        }
    }

    /// The records after the vote has been cast.
    pub open spec fn outcome(&self, support: bool) -> Vote {
        Vote {
            state: self.state,
            proposal: if support {
                Proposal {
                    votes_for: (self.proposal.votes_for + self.weight()) as u128,
                    ..self.proposal
                }
            } else {
                Proposal {
                    votes_against: (self.proposal.votes_against + self.weight()) as u128,
                    ..self.proposal
                }
            },
            member: self.member,
            vote_record: VoteRecord {
                voter: self.member.authority,
                proposal_id: self.proposal.id,
                support,
                weight: self.weight() as u128,
                has_voted: true,
            },
            voter: self.voter,
        }
    }
}

/// Casts the caller's vote on an active proposal whose voting window is
/// open. The weight is computed at this moment and kept on the vote's
/// record; a member votes once on a proposal.
pub fn vote(ctx: &mut Vote, now: i64, support: bool) -> (result: Result<(), ErrorCode>)
    ensures
        result == answer(old(ctx).rejection(now, support)),
        old(ctx).rejection(now, support) is None ==> *final(ctx) == old(ctx).outcome(support),
        old(ctx).rejection(now, support) is Some ==> *final(ctx) == *old(ctx),
{
    if !quorum_met(&ctx.state) {
        return Err(ErrorCode::DaoShutdown);
    }
    if !ctx.member.is_active {
        return Err(ErrorCode::MemberNotActive);
    }
    if ctx.proposal.status != ProposalStatus::Active {
        return Err(ErrorCode::ProposalNotActive);
    }
    if now >= ctx.proposal.voting_ends_at {
        return Err(ErrorCode::VotingPeriodEnded);
    }
    if ctx.vote_record.has_voted {
        return Err(ErrorCode::AlreadyVoted);
    }
    let voting_weight = calculate_voting_weight(&ctx.member, &ctx.state);
    if voting_weight == 0 {
        return Err(ErrorCode::InsufficientReputation);
    }
    if support {
        let votes_for = match ctx.proposal.votes_for.checked_add(voting_weight) {
            Some(votes_for) => votes_for,
            None => {
                return Err(ErrorCode::ArithmeticOverflow);
            },
        };
        ctx.proposal.votes_for = votes_for;
    } else {
        let votes_against = match ctx.proposal.votes_against.checked_add(voting_weight) {
            Some(votes_against) => votes_against,
            None => {
                return Err(ErrorCode::ArithmeticOverflow);
            },
        };
        ctx.proposal.votes_against = votes_against;
    }
    ctx.vote_record = VoteRecord {
        voter: ctx.member.authority,
        proposal_id: ctx.proposal.id,
        support,
        weight: voting_weight,
        has_voted: true,
    };
    Ok(())
}

/// The records that settling a proposal touches.
#[derive(Clone, Debug, PartialEq, Eq)]
pub struct ExecuteProposal {
    /// The ledger. Read.
    pub state: State,
    /// The proposal. Its status is settled.
    pub proposal: Proposal,
    /// The caller.
    pub executor: Pubkey,
}

impl ExecuteProposal {
    /// Why the proposal is not settled, if it is not.
    /// Where several conditions hold, the first one listed decides.
    pub open spec fn rejection(&self, now: i64) -> Option<ErrorCode> {
        if !has_quorum(self.state) {
            Some(ErrorCode::DaoShutdown)
        } else if self.proposal.status != ProposalStatus::Active {
            Some(ErrorCode::ProposalNotActive)
        } else if now < self.proposal.voting_ends_at {
            Some(ErrorCode::VotingPeriodNotEnded)
        } else {
            None
        }
    }

    /// The records after the proposal has been settled.
    pub open spec fn outcome(&self) -> ExecuteProposal {
        ExecuteProposal {
            state: self.state,
            proposal: Proposal { status: settled_status(self.proposal), ..self.proposal },
            executor: self.executor,
        }
    }
}

/// Settles an active proposal once its voting window has closed: it
/// becomes `Passed` or `Rejected` by the rule of its type, and stays so.
pub fn execute_proposal(ctx: &mut ExecuteProposal, now: i64) -> (result: Result<(), ErrorCode>)
    ensures
        result == answer(old(ctx).rejection(now)),
        old(ctx).rejection(now) is None ==> *final(ctx) == old(ctx).outcome(),
        old(ctx).rejection(now) is Some ==> *final(ctx) == *old(ctx),
{
    if !quorum_met(&ctx.state) {
        return Err(ErrorCode::DaoShutdown);
    }
    if ctx.proposal.status != ProposalStatus::Active {
        return Err(ErrorCode::ProposalNotActive);
    }
    if now < ctx.proposal.voting_ends_at {
        return Err(ErrorCode::VotingPeriodNotEnded);
    }
    let passed = proposal_passes(&ctx.proposal);
    ctx.proposal.status = if passed {
        ProposalStatus::Passed
    } else {
        ProposalStatus::Rejected
    };
    Ok(())
}

/// A critical proposal with exactly half of the captured power in favour
/// fails, and passes with one more.
pub proof fn critical_majority_is_strict(total_power_snapshot: u128, votes_against: u128)
    ensures
        !passes(
            ProposalType::Critical,
            total_power_snapshot / 2,
            votes_against,
            total_power_snapshot,
        ),
        passes(
            ProposalType::Critical,
            (total_power_snapshot / 2 + 1) as u128,
            votes_against,
            total_power_snapshot,
        ),
{
}

/// An operational proposal fails on a tie and passes with one more in
/// favour than against.
pub proof fn operational_majority_is_strict(votes: u128, total_power_snapshot: u128)
    requires
        votes < u128::MAX,
    ensures
        !passes(ProposalType::Operational, votes, votes, total_power_snapshot),
        passes(ProposalType::Operational, (votes + 1) as u128, votes, total_power_snapshot),
{
}

/// Settling is final: once a proposal has been settled, settling it again
/// is refused at any time and under any ledger, so its status and tallies
/// stay as they are.
pub proof fn execution_is_final(
    first: ExecuteProposal,
    now: i64,
    second: ExecuteProposal,
    later: i64,
)
    requires
        first.rejection(now) is None,
        second.proposal == first.outcome().proposal,
    ensures
        second.rejection(later) is Some,
        has_quorum(second.state) ==> second.rejection(later) == Some(
            ErrorCode::ProposalNotActive,
        ),
{
}

/// A proposal that has left the `Active` status takes no more votes and is
/// not settled again.
pub proof fn settled_proposal_is_closed(
    ballot: Vote,
    settlement: ExecuteProposal,
    now: i64,
    support: bool,
)
    requires
        ballot.proposal.status != ProposalStatus::Active,
        settlement.proposal.status != ProposalStatus::Active,
    ensures
        ballot.rejection(now, support) is Some,
        settlement.rejection(now) is Some,
{
}

/// Making, voting on and settling a proposal leave the ledger in agreement
/// with the roster, which they do not touch.
pub proof fn governance_keeps_balance(
    roster: Seq<Member>,
    proposing: CreateProposal,
    ballot: Vote,
    settlement: ExecuteProposal,
    now: i64,
    title: String,
    description: String,
    proposal_type: ProposalType,
    voting_period: i64,
    support: bool,
)
    ensures
        balanced(proposing.state, roster) ==> balanced(
            proposing.outcome(now, title, description, proposal_type, voting_period).state,
            roster,
        ),
        balanced(ballot.state, roster) ==> balanced(ballot.outcome(support).state, roster),
        balanced(settlement.state, roster) ==> balanced(settlement.outcome().state, roster),
{
}

/// Under a ledger that agrees with the roster, the vote of an active member
/// of the roster weighs at most one unit.
pub proof fn vote_weighs_at_most_one_unit(roster: Seq<Member>, at: int, ballot: Vote)
    requires
        0 <= at < roster.len(),
        roster[at] == ballot.member,
        ballot.member.is_active,
        balanced(ballot.state, roster),
    ensures
        0 <= ballot.weight() <= SCALING_FACTOR,
{
    column_sum_bounds(roster, Column::Presence);
    column_sum_bounds(roster, Column::Competence);
    weight_within_unit(
        ballot.member.presence_score,
        ballot.member.competence_score,
        ballot.state.total_presence,
        ballot.state.total_competence,
    );
}

/// The life of a proposal: it is created `Active`, a vote leaves its status
/// alone, and settling makes it `Passed` or `Rejected`. Nothing makes it
/// `Cancelled`.
pub proof fn proposal_life(
    proposing: CreateProposal,
    ballot: Vote,
    settlement: ExecuteProposal,
    now: i64,
    title: String,
    description: String,
    proposal_type: ProposalType,
    voting_period: i64,
    support: bool,
)
    ensures
        proposing.outcome(now, title, description, proposal_type, voting_period).proposal.status
            == ProposalStatus::Active,
        ballot.outcome(support).proposal.status == ballot.proposal.status,
        settlement.outcome().proposal.status == ProposalStatus::Passed
            || settlement.outcome().proposal.status == ProposalStatus::Rejected,
{
}

} // verus!
