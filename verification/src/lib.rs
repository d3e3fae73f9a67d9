//! A reputation-weighted governance engine for a small organization.
//!
//! Members stand on two scores, presence and competence. Attending events
//! raises presence; coming late, ghosting or turning up unannounced lowers
//! it, never below zero. The weight of a member's vote is the product of
//! the member's shares of both scores. Proposals pass by the rule of their
//! type, and with fewer than three active members everything but the
//! founding and the seeding of genesis members halts.
//!
//! Every operation works on the records it is handed and on a current time
//! given by the caller. It either does all of its work or is refused and
//! changes nothing.

pub mod constants;
pub mod error;
pub mod events;
pub mod governance;
pub mod history;
pub mod ledger;
pub mod membership;
pub mod pubkey;
pub mod quorum;
pub mod records;
pub mod scoring;

pub use crate::constants::{
    ATTENDANCE_REWARD,
    COOPTED_COMPETENCE,
    COOPTED_PRESENCE,
    GENESIS_COMPETENCE,
    GENESIS_PRESENCE,
    GHOSTING_PENALTY,
    LATE_PENALTY,
    MAX_GENESIS_MEMBERS,
    MIN_QUORUM,
    OUBLI_PENALTY,
    SCALING_FACTOR,
    SLOT_DURATION,
};
pub use crate::error::ErrorCode;
pub use crate::events::{
    classify_attendance,
    create_event,
    finalize_event,
    record_attendance,
    register_for_event,
    withdraw_from_event,
    Attendance,
    CreateEvent,
    FinalizeEvent,
    RecordAttendance,
    RegisterForEvent,
    WithdrawFromEvent,
};
pub use crate::governance::{
    create_proposal,
    execute_proposal,
    proposal_passes,
    vote,
    CreateProposal,
    ExecuteProposal,
    Vote,
};
pub use crate::ledger::{initialize, is_balanced, Initialize};
pub use crate::membership::{
    add_genesis_member,
    ban_member,
    coopt_member,
    update_competence,
    AddGenesisMember,
    BanMember,
    CooptMember,
    UpdateCompetence,
};
pub use crate::pubkey::Pubkey;
pub use crate::quorum::quorum_met;
pub use crate::records::{
    EventRegistration,
    Member,
    Proposal,
    ProposalStatus,
    ProposalType,
    State,
    TrackSession,
    VoteRecord,
};
pub use crate::scoring::{
    calculate_total_voting_power,
    calculate_voting_weight,
    clamp_penalty,
    credit,
    slash,
};
