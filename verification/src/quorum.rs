//! The quorum guard: with fewer active members than the quorum the
//! organization is frozen, and every operation but the founding and the
//! seeding of genesis members is refused.

use vstd::prelude::*;
use crate::constants::MIN_QUORUM;
use crate::error::ErrorCode;
use crate::events::{
    CreateEvent,
    FinalizeEvent,
    RecordAttendance,
    RegisterForEvent,
    WithdrawFromEvent,
};
use crate::governance::{CreateProposal, ExecuteProposal, Vote};
use crate::membership::{BanMember, CooptMember, UpdateCompetence};
use crate::records::State;

verus! {

/// Whether enough members are active for the organization to operate.
pub open spec fn has_quorum(state: State) -> bool {
    state.active_members >= MIN_QUORUM
}

/// Tells whether enough members are active for the organization to operate.
pub fn quorum_met(state: &State) -> (met: bool)
    ensures
        met == has_quorum(*state),
{
    state.active_members >= MIN_QUORUM
}

/// While the organization is frozen, each guarded operation is refused
/// with `DaoShutdown`, whatever else holds of its records and arguments.
pub proof fn frozen_organization_refuses(
    state: State,
    creating_event: CreateEvent,
    registering: RegisterForEvent,
    withdrawing: WithdrawFromEvent,
    recording: RecordAttendance,
    closing: FinalizeEvent,
    reviewing: UpdateCompetence,
    proposing: CreateProposal,
    voting: Vote,
    settling: ExecuteProposal,
    banning: BanMember,
    coopting: CooptMember,
    now: i64,
    moment: i64,
    flag: bool,
)
    requires
        !has_quorum(state),
        creating_event.state == state,
        registering.state == state,
        withdrawing.state == state,
        recording.state == state,
        closing.state == state,
        reviewing.state == state,
        proposing.state == state,
        voting.state == state,
        settling.state == state,
        banning.state == state,
        coopting.state == state,
    ensures
        creating_event.rejection(now, moment) == Some(ErrorCode::DaoShutdown),
        registering.rejection(now) == Some(ErrorCode::DaoShutdown),
        withdrawing.rejection(now) == Some(ErrorCode::DaoShutdown),
        recording.rejection(now, flag) == Some(ErrorCode::DaoShutdown),
        closing.rejection(now) == Some(ErrorCode::DaoShutdown),
        reviewing.rejection(moment) == Some(ErrorCode::DaoShutdown),
        proposing.rejection(now, moment) == Some(ErrorCode::DaoShutdown),
        voting.rejection(now, flag) == Some(ErrorCode::DaoShutdown),
        settling.rejection(now) == Some(ErrorCode::DaoShutdown),
        banning.rejection() == Some(ErrorCode::DaoShutdown),
        coopting.rejection() == Some(ErrorCode::DaoShutdown),
{
}

} // verus!
