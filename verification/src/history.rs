//! The organization over time: the ledger together with every member
//! record, and the accepted operations that lead from one stage to the
//! next. Through any history from the founding the ledger stays in
//! agreement with the roster, as long as no score of an inactive member is
//! changed.

use vstd::prelude::*;
use crate::events::{
    attendance_keeps_balance,
    registration_keeps_balance,
    withdrawal_keeps_balance,
    CreateEvent,
    FinalizeEvent,
    RecordAttendance,
    RegisterForEvent,
    WithdrawFromEvent,
};
use crate::governance::{CreateProposal, ExecuteProposal, Vote};
use crate::ledger::{balanced, Initialize};
use crate::membership::{
    ban_keeps_balance,
    cooption_keeps_balance,
    review_keeps_balance,
    seeding_keeps_balance,
    AddGenesisMember,
    BanMember,
    CooptMember,
    UpdateCompetence,
};
use crate::records::{Member, ProposalType, State};

verus! {

/// The ledger and all member records, as the store holds them.
pub struct Organization {
    /// The ledger.
    pub state: State,
    /// Every member record once, in the order of admission.
    pub roster: Seq<Member>,
}

/// An accepted operation, with the records it was handed and its
/// arguments. `at` is the place on the roster of the member record that the
/// operation writes.
pub enum Entry {
    /// A genesis member was seeded.
    Seeded { ctx: AddGenesisMember, now: i64 },
    /// A member was coopted.
    Coopted { ctx: CooptMember, now: i64 },
    /// The member at `at` was banned.
    Banned { at: int, ctx: BanMember },
    /// The competence of the member at `at` was reviewed.
    Reviewed { at: int, ctx: UpdateCompetence, score_delta: i64 },
    /// An event was created.
    EventCreated { ctx: CreateEvent, now: i64, start_time: i64, description: String },
    /// The member at `at` registered for an event.
    Registered { at: int, ctx: RegisterForEvent, now: i64 },
    /// The member at `at` withdrew from an event.
    Withdrawn { at: int, ctx: WithdrawFromEvent, now: i64 },
    /// The attendance of the member at `at` was recorded.
    AttendanceRecorded { at: int, ctx: RecordAttendance, now: i64, was_present: bool },
    /// An event was closed.
    EventFinalized { ctx: FinalizeEvent, now: i64 },
    /// A proposal was made.
    Proposed {
        ctx: CreateProposal,
        now: i64,
        title: String,
        description: String,
        proposal_type: ProposalType,
        voting_period: i64,
    },
    /// A vote was cast.
    Voted { ctx: Vote, now: i64, support: bool },
    /// A proposal was settled.
    Executed { ctx: ExecuteProposal, now: i64 },
}

/// The organization right after its founding: the initial ledger and no
/// members.
pub open spec fn founded(ctx: Initialize) -> Organization {
    Organization { state: ctx.outcome().state, roster: Seq::empty() }
}

/// The stage in which the ledger is `state` and the member record at `at`
/// has been replaced.
pub open spec fn rewritten(before: Organization, state: State, at: int, member: Member)
    -> Organization {
    Organization { state, roster: before.roster.update(at, member) }
}

/// The stage in which the ledger is `state` and a new member record has
/// been added.
pub open spec fn admitted(before: Organization, state: State, member: Member) -> Organization {
    Organization { state, roster: before.roster.push(member) }
}

/// Whether the operation was handed the ledger of the stage and, where it
/// writes a member record, the record at `at`.
pub open spec fn reads(before: Organization, state: State, at: int, member: Member) -> bool {
    &&& state == before.state
    &&& 0 <= at < before.roster.len()
    &&& member == before.roster[at]
}

/// Whether `entry` leads from `before` to `after`: the operation was handed
/// the records of `before`, was accepted, and `after` holds what it wrote.
pub open spec fn follows(before: Organization, entry: Entry, after: Organization) -> bool {
    match entry {
        Entry::Seeded { ctx, now } => {
            &&& ctx.state == before.state
            &&& ctx.rejection() is None
            &&& after == admitted(before, ctx.outcome(now).state, ctx.outcome(now).member)
        },
        Entry::Coopted { ctx, now } => {
            &&& ctx.state == before.state
            &&& ctx.rejection() is None
            &&& after == admitted(before, ctx.outcome(now).state, ctx.outcome(now).new_member)
        },
        Entry::Banned { at, ctx } => {
            &&& reads(before, ctx.state, at, ctx.target_member)
            &&& ctx.rejection() is None
            &&& after == rewritten(before, ctx.outcome().state, at, ctx.outcome().target_member)
        },
        Entry::Reviewed { at, ctx, score_delta } => {
            &&& reads(before, ctx.state, at, ctx.target_member)
            &&& ctx.rejection(score_delta) is None
            &&& after == rewritten(
                before,
                ctx.outcome(score_delta).state,
                at,
                ctx.outcome(score_delta).target_member,
            )
        },
        Entry::EventCreated { ctx, now, start_time, description } => {
            &&& ctx.state == before.state
            &&& ctx.rejection(now, start_time) is None
            &&& after == Organization {
                state: ctx.outcome(start_time, description).state,
                roster: before.roster,
            }
        },
        Entry::Registered { at, ctx, now } => {
            &&& reads(before, ctx.state, at, ctx.member)
            &&& ctx.rejection(now) is None
            &&& after == rewritten(before, ctx.outcome(now).state, at, ctx.outcome(now).member)
        },
        Entry::Withdrawn { at, ctx, now } => {
            &&& reads(before, ctx.state, at, ctx.member)
            &&& ctx.rejection(now) is None
            &&& after == rewritten(before, ctx.outcome(now).state, at, ctx.outcome(now).member)
        },
        Entry::AttendanceRecorded { at, ctx, now, was_present } => {
            &&& reads(before, ctx.state, at, ctx.member)
            &&& ctx.rejection(now, was_present) is None
            &&& after == rewritten(
                before,
                ctx.outcome(was_present).state,
                at,
                ctx.outcome(was_present).member,
            )
        },
        Entry::EventFinalized { ctx, now } => {
            &&& ctx.state == before.state
            &&& ctx.rejection(now) is None
            &&& after == before
        },
        Entry::Proposed { ctx, now, title, description, proposal_type, voting_period } => {
            &&& ctx.state == before.state
            &&& ctx.rejection(now, voting_period) is None
            &&& after == Organization {
                state: ctx.outcome(now, title, description, proposal_type, voting_period).state,
                roster: before.roster,
            }
        },
        Entry::Voted { ctx, now, support } => {
            &&& ctx.state == before.state
            &&& ctx.rejection(now, support) is None
            &&& after == before
        },
        Entry::Executed { ctx, now } => {
            &&& ctx.state == before.state
            &&& ctx.rejection(now) is None
            &&& after == before
        },
    }
}

/// Whether `entry` leaves the scores of inactive members alone. A review
/// and a record of attendance reach members who are not active; any other
/// operation on a member asks that the member be active.
pub open spec fn spares_the_inactive(entry: Entry) -> bool {
    match entry {
        Entry::Reviewed { at, ctx, score_delta } => ctx.target_member.is_active
            || ctx.outcome(score_delta).target_member.competence_score
            == ctx.target_member.competence_score,
        Entry::AttendanceRecorded { at, ctx, now, was_present } => ctx.member.is_active
            || ctx.outcome(was_present).member.presence_score == ctx.member.presence_score,
        _ => true,
    }
}

/// An accepted operation that leaves the scores of inactive members alone
/// leads from a stage in which the ledger agrees with the roster to
/// another such stage.
pub proof fn entry_keeps_balance(before: Organization, entry: Entry, after: Organization)
    requires
        balanced(before.state, before.roster),
        follows(before, entry, after),
        spares_the_inactive(entry),
    ensures
        balanced(after.state, after.roster),
{
    match entry {
        Entry::Seeded { ctx, now } => {
            seeding_keeps_balance(before.roster, ctx, now);
        },
        Entry::Coopted { ctx, now } => {
            cooption_keeps_balance(before.roster, ctx, now);
        },
        Entry::Banned { at, ctx } => {
            ban_keeps_balance(before.roster, at, ctx);
        },
        Entry::Reviewed { at, ctx, score_delta } => {
            review_keeps_balance(before.roster, at, ctx, score_delta);
        },
        Entry::Registered { at, ctx, now } => {
            registration_keeps_balance(before.roster, at, ctx, now);
        },
        Entry::Withdrawn { at, ctx, now } => {
            withdrawal_keeps_balance(before.roster, at, ctx, now);
        },
        Entry::AttendanceRecorded { at, ctx, now, was_present } => {
            attendance_keeps_balance(before.roster, at, ctx, now, was_present);
        },
        _ => {},
    }
}

/// Whether `stages` is the course of the organization from its founding
/// through `entries`: one stage more than entries, each entry leading from
/// its stage to the next.
pub open spec fn is_history(founding: Initialize, entries: Seq<Entry>, stages: Seq<Organization>)
    -> bool {
    &&& stages.len() == entries.len() + 1
    &&& stages[0] == founded(founding)
    &&& forall|step: int|
        0 <= step < entries.len() ==> #[trigger] follows(
            stages[step],
            entries[step],
            stages[step + 1],
        )
}

/// At every stage of a history that was reached by entries which leave the
/// scores of inactive members alone, the ledger's totals are the sums of
/// the active members' scores and its count of active members is their
/// number.
pub proof fn ledger_stays_balanced(
    founding: Initialize,
    entries: Seq<Entry>,
    stages: Seq<Organization>,
    stage: int,
)
    requires
        is_history(founding, entries, stages),
        0 <= stage < stages.len(),
        forall|step: int| 0 <= step < stage ==> spares_the_inactive(#[trigger] entries[step]),
    ensures
        balanced(stages[stage].state, stages[stage].roster),
    decreases stage,
{
    if stage > 0 {
        ledger_stays_balanced(founding, entries, stages, stage - 1);
        assert(follows(stages[stage - 1], entries[stage - 1], stages[stage - 1 + 1]));
        entry_keeps_balance(stages[stage - 1], entries[stage - 1], stages[stage]);
    }
}

} // verus!
