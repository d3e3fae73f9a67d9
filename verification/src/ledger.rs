//! The aggregate ledger: how it starts, and what it means for the ledger to
//! agree with the members it sums up.

use vstd::prelude::*;
use crate::error::ErrorCode;
use crate::pubkey::Pubkey;
use crate::records::{Member, State};

verus! {

/// The records that founding the organization touches.
#[derive(Clone, Copy, Debug, PartialEq, Eq)]
pub struct Initialize {
    /// The ledger. Written.
    pub state: State,
    /// The caller, who becomes the ledger's authority.
    pub authority: Pubkey,
}

impl Initialize {
    /// The records after the founding: an empty ledger under the caller's
    /// authority.
    pub open spec fn outcome(&self) -> Initialize {
        Initialize {
            state: State {
                authority: self.authority,
                total_presence: 0,
                total_competence: 0,
                active_members: 0,
                genesis_count: 0,
                event_counter: 0,
                proposal_counter: 0,
            },
            authority: self.authority,
        }
    }
}

/// Founds the organization: writes an empty ledger whose authority is the
/// caller. Never refused.
pub fn initialize(ctx: &mut Initialize) -> (result: Result<(), ErrorCode>)
    ensures
        result == Ok::<(), ErrorCode>(()),
        *final(ctx) == old(ctx).outcome(),
{
    ctx.state = State {
        authority: ctx.authority,
        total_presence: 0,
        total_competence: 0,
        active_members: 0,
        genesis_count: 0,
        event_counter: 0,
        proposal_counter: 0,
    };
    Ok(())
}

/// One of the three figures that the ledger keeps about its members.
pub enum Column {
    /// The total of presence scores.
    Presence,
    /// The total of competence scores.
    Competence,
    /// The number of active members.
    Headcount,
}

/// What one member adds to a figure of the ledger: nothing while inactive.
pub open spec fn contribution(member: Member, column: Column) -> int {
    if !member.is_active {
        0
    } else {
        match column {
            Column::Presence => member.presence_score as int,
            Column::Competence => member.competence_score as int,
            Column::Headcount => 1,
        }
    }
}

/// What all member records together add to a figure of the ledger. The
/// roster holds every member record once, in any order.
pub open spec fn column_sum(roster: Seq<Member>, column: Column) -> int
    decreases roster.len(),
{
    if roster.len() == 0 {
        0
    } else {
        column_sum(roster.drop_last(), column) + contribution(roster.last(), column)
    }
}

/// The ledger's totals are the sums of the active members' scores.
pub open spec fn totals_match(state: State, roster: Seq<Member>) -> bool {
    &&& state.total_presence == column_sum(roster, Column::Presence)
    &&& state.total_competence == column_sum(roster, Column::Competence)
}

/// The ledger's count of active members is the number of active member
/// records.
pub open spec fn headcount_matches(state: State, roster: Seq<Member>) -> bool {
    state.active_members == column_sum(roster, Column::Headcount)
}

/// The ledger agrees with the roster in all three figures.
pub open spec fn balanced(state: State, roster: Seq<Member>) -> bool {
    totals_match(state, roster) && headcount_matches(state, roster)
}

/// A new record adds its contribution to the sum.
pub proof fn column_sum_push(roster: Seq<Member>, member: Member, column: Column)
    ensures
        column_sum(roster.push(member), column) == column_sum(roster, column) + contribution(
            member,
            column,
        ),
{
    assert(roster.push(member).drop_last() =~= roster);
}

/// Replacing a record changes the sum by the difference of the two
/// contributions.
pub proof fn column_sum_update(roster: Seq<Member>, at: int, member: Member, column: Column)
    requires
        0 <= at < roster.len(),
    ensures
        column_sum(roster.update(at, member), column) == column_sum(roster, column)
            - contribution(roster[at], column) + contribution(member, column),
    decreases roster.len(),
{
    let updated = roster.update(at, member);
    if at == roster.len() - 1 {
        assert(updated.drop_last() =~= roster.drop_last());
    } else {
        column_sum_update(roster.drop_last(), at, member, column);
        assert(updated.drop_last() =~= roster.drop_last().update(at, member));
    }
}

/// No record contributes more than the sum, and the sum is never negative.
pub proof fn column_sum_bounds(roster: Seq<Member>, column: Column)
    ensures
        0 <= column_sum(roster, column),
        forall|at: int|
            0 <= at < roster.len() ==> contribution(#[trigger] roster[at], column) <= column_sum(
                roster,
                column,
            ),
    decreases roster.len(),
{
    if roster.len() > 0 {
        column_sum_bounds(roster.drop_last(), column);
        assert forall|at: int| 0 <= at < roster.len() implies contribution(
            #[trigger] roster[at],
            column,
        ) <= column_sum(roster, column) by {
            if at < roster.len() - 1 {
                assert(roster.drop_last()[at] == roster[at]);
            }
        }
    }
}

/// The initial ledger agrees with the empty roster.
pub proof fn founding_is_balanced(ctx: Initialize)
    ensures
        balanced(ctx.outcome().state, Seq::<Member>::empty()),
{
}

/// A ledger that keeps its three figures stays in agreement with the
/// roster, whatever else of it changes.
pub proof fn balance_rests_on_figures(before: State, after: State, roster: Seq<Member>)
    requires
        balanced(before, roster),
        after.total_presence == before.total_presence,
        after.total_competence == before.total_competence,
        after.active_members == before.active_members,
    ensures
        balanced(after, roster),
{
}

/// Tells whether the ledger agrees with the roster in all three figures.
pub fn is_balanced(state: &State, roster: &Vec<Member>) -> (agrees: bool)
    ensures
        agrees == balanced(*state, roster@),
{
    let mut presence: u128 = 0;
    let mut competence: u128 = 0;
    let mut headcount: u128 = 0;
    let mut seen: usize = 0;
    while seen < roster.len()
        invariant
            seen <= roster.len(),
            presence == column_sum(roster@.take(seen as int), Column::Presence),
            competence == column_sum(roster@.take(seen as int), Column::Competence),
            headcount == column_sum(roster@.take(seen as int), Column::Headcount),
            presence <= seen * u64::MAX,
            competence <= seen * u64::MAX,
            headcount <= seen,
        decreases roster.len() - seen,
    {
        let member = &roster[seen];
        proof {
            let before = roster@.take(seen as int);
            assert(roster@.take(seen + 1) =~= before.push(*member));
            column_sum_push(before, *member, Column::Presence);
            column_sum_push(before, *member, Column::Competence);
            column_sum_push(before, *member, Column::Headcount);
            assert((seen + 1) * u64::MAX == seen * u64::MAX + u64::MAX) by (nonlinear_arith);
            assert(seen * u64::MAX <= u64::MAX * u64::MAX) by (nonlinear_arith)
                requires
                    seen <= u64::MAX,
            ;
        }
        if member.is_active {
            presence = presence + member.presence_score as u128;
            competence = competence + member.competence_score as u128;
            headcount = headcount + 1;
        }
        seen = seen + 1;
    }
    assert(roster@.take(seen as int) =~= roster@);
    state.total_presence as u128 == presence && state.total_competence as u128 == competence
        && state.active_members as u128 == headcount
}

} // verus!
