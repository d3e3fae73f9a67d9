//! The membership: seeding the genesis members, coopting and banning
//! members, and reviewing a member's competence.

use vstd::prelude::*;
use crate::constants::{
    COOPTED_COMPETENCE,
    COOPTED_PRESENCE,
    GENESIS_COMPETENCE,
    GENESIS_PRESENCE,
    MAX_GENESIS_MEMBERS,
    SCALING_FACTOR,
};
use crate::error::{answer, ErrorCode};
use crate::ledger::{
    balanced,
    column_sum_bounds,
    column_sum_push,
    column_sum_update,
    Column,
};
use crate::pubkey::Pubkey;
use crate::quorum::{has_quorum, quorum_met};
use crate::records::{Member, State};
use crate::scoring::{clamped_penalty, credit, slash};

verus! {

/// The records that seeding a genesis member touches.
#[derive(Clone, Copy, Debug, PartialEq, Eq)]
pub struct AddGenesisMember {
    /// The ledger. The new member is added to its figures.
    pub state: State,
    /// The new member's record. Written.
    pub member: Member,
    /// The new member's principal.
    pub member_authority: Pubkey,
    /// The caller.
    pub authority: Pubkey,
}

impl AddGenesisMember {
    /// Why the member is not seeded, if they are not.
    /// Where several conditions hold, the first one listed decides.
    pub open spec fn rejection(&self) -> Option<ErrorCode> {
        if self.state.genesis_count >= MAX_GENESIS_MEMBERS {
            Some(ErrorCode::GenesisClosed)
        } else if self.state.total_presence + GENESIS_PRESENCE > u64::MAX
            || self.state.total_competence + GENESIS_COMPETENCE > u64::MAX
            || self.state.active_members + 1 > u8::MAX {
            Some(ErrorCode::ArithmeticOverflow)
        } else {
            None
        }
    }

    /// The records after the member has been seeded.
    pub open spec fn outcome(&self, now: i64) -> AddGenesisMember {
        AddGenesisMember {
            state: State {
                total_presence: (self.state.total_presence + GENESIS_PRESENCE) as u64,
                total_competence: (self.state.total_competence + GENESIS_COMPETENCE) as u64,
                active_members: (self.state.active_members + 1) as u8,
                genesis_count: (self.state.genesis_count + 1) as u8,
                ..self.state
            },
            member: Member {
                authority: self.member_authority,
                presence_score: GENESIS_PRESENCE,
                competence_score: GENESIS_COMPETENCE,
                is_active: true,
                is_genesis: true,
                joined_at: now,
            },
            member_authority: self.member_authority,
            authority: self.authority,
        }
    }
}

/// Seeds a genesis member with the genesis scores, while genesis seats are
/// left. The quorum is not asked for: seeding is how it comes about.
pub fn add_genesis_member(ctx: &mut AddGenesisMember, now: i64) -> (result: Result<(), ErrorCode>)
    ensures
        result == answer(old(ctx).rejection()),
        old(ctx).rejection() is None ==> *final(ctx) == old(ctx).outcome(now),
        old(ctx).rejection() is Some ==> *final(ctx) == *old(ctx),
{
    if ctx.state.genesis_count >= MAX_GENESIS_MEMBERS {
        return Err(ErrorCode::GenesisClosed);
    }
    let total_presence = match ctx.state.total_presence.checked_add(GENESIS_PRESENCE) {
        Some(total_presence) => total_presence,
        None => {
            return Err(ErrorCode::ArithmeticOverflow);
        },
    };
    let total_competence = match ctx.state.total_competence.checked_add(GENESIS_COMPETENCE) {
        Some(total_competence) => total_competence,
        None => {
            return Err(ErrorCode::ArithmeticOverflow);
        },
    };
    let active_members = match ctx.state.active_members.checked_add(1) {
        Some(active_members) => active_members,
        None => {
            return Err(ErrorCode::ArithmeticOverflow);
        },
    };
    let genesis_count = match ctx.state.genesis_count.checked_add(1) {
        Some(genesis_count) => genesis_count,
        None => {
            return Err(ErrorCode::ArithmeticOverflow);
        },
    };
    ctx.member = Member {
        authority: ctx.member_authority,
        presence_score: GENESIS_PRESENCE,
        competence_score: GENESIS_COMPETENCE,
        is_active: true,
        is_genesis: true,
        joined_at: now,
    };
    ctx.state.total_presence = total_presence;
    ctx.state.total_competence = total_competence;
    ctx.state.active_members = active_members;
    ctx.state.genesis_count = genesis_count;
    Ok(())
}

/// The records that coopting a member touches.
#[derive(Clone, Copy, Debug, PartialEq, Eq)]
pub struct CooptMember {
    /// The ledger. The new member is added to its figures.
    pub state: State,
    /// The new member's record. Written.
    pub new_member: Member,
    /// The new member's principal.
    pub new_member_authority: Pubkey,
    /// The caller's member record. Read.
    pub sponsor_member: Member,
    /// The caller, who sponsors the new member.
    pub sponsor: Pubkey,
}

impl CooptMember {
    /// Why the member is not coopted, if they are not.
    /// Where several conditions hold, the first one listed decides.
    pub open spec fn rejection(&self) -> Option<ErrorCode> {
        if !has_quorum(self.state) {
            Some(ErrorCode::DaoShutdown)
        } else if !self.sponsor_member.is_active {
            Some(ErrorCode::MemberNotActive)
        } else if self.state.total_presence + COOPTED_PRESENCE > u64::MAX
            || self.state.total_competence + COOPTED_COMPETENCE > u64::MAX
            || self.state.active_members + 1 > u8::MAX {
            Some(ErrorCode::ArithmeticOverflow)
        } else {
            None
        }
    }

    /// The records after the member has been coopted.
    pub open spec fn outcome(&self, now: i64) -> CooptMember {
        CooptMember {
            state: State {
                total_presence: (self.state.total_presence + COOPTED_PRESENCE) as u64,
                total_competence: (self.state.total_competence + COOPTED_COMPETENCE) as u64,
                active_members: (self.state.active_members + 1) as u8,
                ..self.state
            },
            new_member: Member {
                authority: self.new_member_authority,
                presence_score: COOPTED_PRESENCE,
                competence_score: COOPTED_COMPETENCE,
                is_active: true,
                is_genesis: false,
                joined_at: now,
            },
            new_member_authority: self.new_member_authority,
            sponsor_member: self.sponsor_member,
            sponsor: self.sponsor,
        }
    }
}

/// Admits a new member, sponsored by the caller, with the scores of a
/// coopted member. Whether a passed proposal stands behind the cooption is
/// not asked here.
pub fn coopt_member(ctx: &mut CooptMember, now: i64) -> (result: Result<(), ErrorCode>)
    ensures
        result == answer(old(ctx).rejection()),
        old(ctx).rejection() is None ==> *final(ctx) == old(ctx).outcome(now),
        old(ctx).rejection() is Some ==> *final(ctx) == *old(ctx),
{
    if !quorum_met(&ctx.state) {
        return Err(ErrorCode::DaoShutdown);
    }
    if !ctx.sponsor_member.is_active {
        return Err(ErrorCode::MemberNotActive);
    }
    let total_presence = match ctx.state.total_presence.checked_add(COOPTED_PRESENCE) {
        Some(total_presence) => total_presence,
        None => {
            return Err(ErrorCode::ArithmeticOverflow);
        },
    };
    let total_competence = match ctx.state.total_competence.checked_add(COOPTED_COMPETENCE) {
        Some(total_competence) => total_competence,
        None => {
            return Err(ErrorCode::ArithmeticOverflow);
        },
    };
    let active_members = match ctx.state.active_members.checked_add(1) {
        Some(active_members) => active_members,
        None => {
            return Err(ErrorCode::ArithmeticOverflow);
        },
    };
    ctx.new_member = Member {
        authority: ctx.new_member_authority,
        presence_score: COOPTED_PRESENCE,
        competence_score: COOPTED_COMPETENCE,
        is_active: true,
        is_genesis: false,
        joined_at: now,
    };
    ctx.state.total_presence = total_presence;
    ctx.state.total_competence = total_competence;
    ctx.state.active_members = active_members;
    Ok(())
}

/// The records that banning a member touches.
#[derive(Clone, Copy, Debug, PartialEq, Eq)]
pub struct BanMember {
    /// The ledger. The banned member is taken out of its figures.
    pub state: State,
    /// The record of the member to ban. Zeroed and deactivated.
    pub target_member: Member,
    /// The principal of the member to ban.
    pub target_authority: Pubkey,
    /// The caller's member record. Read.
    pub executor_member: Member,
    /// The caller.
    pub executor: Pubkey,
}

impl BanMember {
    /// Why the member is not banned, if they are not.
    /// Where several conditions hold, the first one listed decides.
    pub open spec fn rejection(&self) -> Option<ErrorCode> {
        if !has_quorum(self.state) {
            Some(ErrorCode::DaoShutdown)
        } else if !self.executor_member.is_active || !self.target_member.is_active {
            Some(ErrorCode::MemberNotActive)
        } else if self.state.total_presence < self.target_member.presence_score
            || self.state.total_competence < self.target_member.competence_score {
            Some(ErrorCode::SlashingOverflow)
        } else {
            None
        }
    }

    /// The records after the member has been banned. The record stays, with
    /// no scores and inactive.
    pub open spec fn outcome(&self) -> BanMember {
        BanMember {
            state: State {
                total_presence: (self.state.total_presence
                    - self.target_member.presence_score) as u64,
                total_competence: (self.state.total_competence
                    - self.target_member.competence_score) as u64,
                active_members: (self.state.active_members - 1) as u8,
                ..self.state
            },
            target_member: Member {
                presence_score: 0,
                competence_score: 0,
                is_active: false,
                ..self.target_member
            },
            target_authority: self.target_authority,
            executor_member: self.executor_member,
            executor: self.executor,
        }
    }
}

/// Bans an active member: the member's scores leave the totals, the member
/// is deactivated and the scores are set to zero. The organization may be
/// left without a quorum by this. Whether a passed proposal stands behind
/// the ban is not asked here.
pub fn ban_member(ctx: &mut BanMember) -> (result: Result<(), ErrorCode>)
    ensures
        result == answer(old(ctx).rejection()),
        old(ctx).rejection() is None ==> *final(ctx) == old(ctx).outcome(),
        old(ctx).rejection() is Some ==> *final(ctx) == *old(ctx),
{
    if !quorum_met(&ctx.state) {
        return Err(ErrorCode::DaoShutdown);
    }
    if !ctx.executor_member.is_active {
        return Err(ErrorCode::MemberNotActive);
    }
    if !ctx.target_member.is_active {
        return Err(ErrorCode::MemberNotActive);
    }
    let total_presence = match ctx.state.total_presence.checked_sub(
        ctx.target_member.presence_score,
    ) {
        Some(total_presence) => total_presence,
        None => {
            return Err(ErrorCode::SlashingOverflow);
        },
    };
    let total_competence = match ctx.state.total_competence.checked_sub(
        ctx.target_member.competence_score,
    ) {
        Some(total_competence) => total_competence,
        None => {
            return Err(ErrorCode::SlashingOverflow);
        },
    };
    let active_members = match ctx.state.active_members.checked_sub(1) {
        Some(active_members) => active_members,
        None => {
            return Err(ErrorCode::ArithmeticOverflow);
        },
    };
    ctx.state.total_presence = total_presence;
    ctx.state.total_competence = total_competence;
    ctx.state.active_members = active_members;
    ctx.target_member.is_active = false;
    ctx.target_member.presence_score = 0;
    ctx.target_member.competence_score = 0;
    Ok(())
}

/// The size of a review in fixed-point units: the absolute value of the
/// signed number of units, scaled.
pub open spec fn review_magnitude(score_delta: i64) -> int {
    if score_delta >= 0 {
        score_delta * SCALING_FACTOR
    } else {
        (-score_delta) * SCALING_FACTOR
    }
}

/// The competence of a member with the given balance after a review: the
/// magnitude added for a review that is not negative, and taken as far as
/// the balance goes for a negative one.
pub open spec fn competence_after(score_delta: i64, balance: u64) -> int {
    let magnitude = review_magnitude(score_delta);
    if score_delta >= 0 {
        balance + magnitude
    } else if magnitude <= balance {
        balance - magnitude
    } else {
        0
    }
}

/// The records that reviewing a member's competence touches.
#[derive(Clone, Copy, Debug, PartialEq, Eq)]
pub struct UpdateCompetence {
    /// The ledger. Its competence total follows the member's competence.
    pub state: State,
    /// The record of the member under review. Its competence is changed.
    pub target_member: Member,
    /// The principal of the member under review.
    pub target_authority: Pubkey,
    /// The caller's member record. Read.
    pub reviewer_member: Member,
    /// The caller.
    pub reviewer: Pubkey,
}

impl UpdateCompetence {
    /// Why the review is not applied, if it is not.
    /// Where several conditions hold, the first one listed decides.
    pub open spec fn rejection(&self, score_delta: i64) -> Option<ErrorCode> {
        let after = competence_after(score_delta, self.target_member.competence_score);
        let change = after - self.target_member.competence_score;
        if !has_quorum(self.state) {
            Some(ErrorCode::DaoShutdown)
        } else if !self.reviewer_member.is_active {
            Some(ErrorCode::MemberNotActive)
        } else if review_magnitude(score_delta) > u64::MAX || after > u64::MAX
            || self.state.total_competence + change > u64::MAX {
            Some(ErrorCode::ArithmeticOverflow)
        } else if self.state.total_competence + change < 0 {
            Some(ErrorCode::SlashingOverflow)
        } else {
            None
        }
    }

    /// The records after the review has been applied. The total moves by
    /// exactly what the member's competence moves by.
    pub open spec fn outcome(&self, score_delta: i64) -> UpdateCompetence {
        let after = competence_after(score_delta, self.target_member.competence_score);
        let change = after - self.target_member.competence_score;
        UpdateCompetence {
            state: State {
                total_competence: (self.state.total_competence + change) as u64,
                ..self.state
            },
            target_member: Member { competence_score: after as u64, ..self.target_member },
            target_authority: self.target_authority,
            reviewer_member: self.reviewer_member,
            reviewer: self.reviewer,
        }
    }
}

/// Computes the size of a review in fixed-point units, or nothing where it
/// does not fit.
fn scaled_magnitude(score_delta: i64) -> (magnitude: Option<u64>)
    ensures
        review_magnitude(score_delta) > u64::MAX ==> magnitude.is_none(),
        review_magnitude(score_delta) <= u64::MAX ==> magnitude == Some(
            review_magnitude(score_delta) as u64,
        ),
{
    let units: u64 = if score_delta >= 0 {
        score_delta as u64
    } else {
        (-(score_delta + 1)) as u64 + 1
    };
    units.checked_mul(SCALING_FACTOR)
}

/// Applies a peer review of `score_delta` units to a member's competence.
/// A negative review takes no more than the member has.
pub fn update_competence(
    ctx: &mut UpdateCompetence,
    score_delta: i64,
) -> (result: Result<(), ErrorCode>)
    ensures
        result == answer(old(ctx).rejection(score_delta)),
        old(ctx).rejection(score_delta) is None ==> *final(ctx) == old(ctx).outcome(score_delta),
        old(ctx).rejection(score_delta) is Some ==> *final(ctx) == *old(ctx),
{
    if !quorum_met(&ctx.state) {
        return Err(ErrorCode::DaoShutdown);
    }
    if !ctx.reviewer_member.is_active {
        return Err(ErrorCode::MemberNotActive);
    }
    let magnitude = match scaled_magnitude(score_delta) {
        Some(magnitude) => magnitude,
        None => {
            return Err(ErrorCode::ArithmeticOverflow);
        },
    };
    let settled = if score_delta >= 0 {
        credit(ctx.target_member.competence_score, ctx.state.total_competence, magnitude)
    } else {
        slash(ctx.target_member.competence_score, ctx.state.total_competence, magnitude)
    };
    match settled {
        Ok((competence_score, total_competence)) => {
            ctx.target_member.competence_score = competence_score;
            ctx.state.total_competence = total_competence;
            Ok(())
        },
        Err(code) => Err(code),
    }
}

/// Seeding keeps the ledger in agreement with the roster, to which the new
/// member's record is added.
pub proof fn seeding_keeps_balance(roster: Seq<Member>, ctx: AddGenesisMember, now: i64)
    requires
        balanced(ctx.state, roster),
        ctx.rejection() is None,
    ensures
        balanced(ctx.outcome(now).state, roster.push(ctx.outcome(now).member)),
{
    let member = ctx.outcome(now).member;
    column_sum_push(roster, member, Column::Presence);
    column_sum_push(roster, member, Column::Competence);
    column_sum_push(roster, member, Column::Headcount);
}

/// Cooption keeps the ledger in agreement with the roster, to which the
/// new member's record is added.
pub proof fn cooption_keeps_balance(roster: Seq<Member>, ctx: CooptMember, now: i64)
    requires
        balanced(ctx.state, roster),
        ctx.rejection() is None,
    ensures
        balanced(ctx.outcome(now).state, roster.push(ctx.outcome(now).new_member)),
{
    let member = ctx.outcome(now).new_member;
    column_sum_push(roster, member, Column::Presence);
    column_sum_push(roster, member, Column::Competence);
    column_sum_push(roster, member, Column::Headcount);
}

/// Banning a member of the roster keeps the ledger in agreement with the
/// roster, in which the member's record is replaced.
pub proof fn ban_keeps_balance(roster: Seq<Member>, at: int, ctx: BanMember)
    requires
        0 <= at < roster.len(),
        roster[at] == ctx.target_member,
        balanced(ctx.state, roster),
        ctx.rejection() is None,
    ensures
        balanced(ctx.outcome().state, roster.update(at, ctx.outcome().target_member)),
{
    let member = ctx.outcome().target_member;
    column_sum_update(roster, at, member, Column::Presence);
    column_sum_update(roster, at, member, Column::Competence);
    column_sum_update(roster, at, member, Column::Headcount);
}

/// A ledger that agrees with the roster holds what a ban takes out of it:
/// banning a member of the roster is never refused for want of it.
pub proof fn balanced_ledger_covers_ban(roster: Seq<Member>, at: int, ctx: BanMember)
    requires
        0 <= at < roster.len(),
        roster[at] == ctx.target_member,
        balanced(ctx.state, roster),
    ensures
        ctx.rejection() != Some(ErrorCode::SlashingOverflow),
{
    column_sum_bounds(roster, Column::Presence);
    column_sum_bounds(roster, Column::Competence);
}

/// Reviewing an active member of the roster keeps the ledger in agreement
/// with the roster, in which the member's record is replaced. So does a
/// review of an inactive one that leaves the competence as it was.
pub proof fn review_keeps_balance(
    roster: Seq<Member>,
    at: int,
    ctx: UpdateCompetence,
    score_delta: i64,
)
    requires
        0 <= at < roster.len(),
        roster[at] == ctx.target_member,
        balanced(ctx.state, roster),
        ctx.rejection(score_delta) is None,
        ctx.target_member.is_active || ctx.outcome(score_delta).target_member.competence_score
            == ctx.target_member.competence_score,
    ensures
        balanced(
            ctx.outcome(score_delta).state,
            roster.update(at, ctx.outcome(score_delta).target_member),
        ),
{
    let member = ctx.outcome(score_delta).target_member;
    column_sum_update(roster, at, member, Column::Presence);
    column_sum_update(roster, at, member, Column::Competence);
    column_sum_update(roster, at, member, Column::Headcount);
}

/// A ledger that agrees with the roster holds what a negative review takes
/// out of it: reviewing an active member of the roster is never refused
/// for want of it.
pub proof fn balanced_ledger_covers_review(
    roster: Seq<Member>,
    at: int,
    ctx: UpdateCompetence,
    score_delta: i64,
)
    requires
        0 <= at < roster.len(),
        roster[at] == ctx.target_member,
        balanced(ctx.state, roster),
        ctx.target_member.is_active,
    ensures
        ctx.rejection(score_delta) != Some(ErrorCode::SlashingOverflow),
{
    column_sum_bounds(roster, Column::Competence);
}

/// A review moves the total by exactly what it moves the member's
/// competence by, and a negative review larger than the member's
/// competence leaves the member at exactly zero.
pub proof fn review_moves_total_with_member(ctx: UpdateCompetence, score_delta: i64)
    requires
        ctx.rejection(score_delta) is None,
    ensures
        ctx.outcome(score_delta).state.total_competence - ctx.state.total_competence
            == ctx.outcome(score_delta).target_member.competence_score
            - ctx.target_member.competence_score,
        score_delta < 0 && review_magnitude(score_delta) >= ctx.target_member.competence_score
            ==> ctx.outcome(score_delta).target_member.competence_score == 0
            && ctx.state.total_competence - ctx.outcome(score_delta).state.total_competence
            == ctx.target_member.competence_score,
{
}

/// Seeding never takes the count of genesis members past the cap.
pub proof fn genesis_seats_are_capped(ctx: AddGenesisMember, now: i64)
    requires
        ctx.rejection() is None,
    ensures
        ctx.outcome(now).state.genesis_count == ctx.state.genesis_count + 1,
        ctx.outcome(now).state.genesis_count <= MAX_GENESIS_MEMBERS,
{
}

} // verus!
