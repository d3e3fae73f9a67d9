//! The persisted records: the aggregate ledger, members, events,
//! registrations, proposals and votes.
//!
//! Each record carries the key under which it is stored. Fetching a record
//! by its key and storing it again is the caller's business; the operations
//! of this crate work on the records they are handed.

use vstd::prelude::*;
use crate::pubkey::Pubkey;

verus! {

/// The organization-wide totals and counters. There is exactly one.
#[derive(Clone, Copy, Debug, PartialEq, Eq)]
pub struct State {
    /// The principal who created the organization.
    pub authority: Pubkey,
    /// Sum of the presence scores of the active members.
    pub total_presence: u64,
    /// Sum of the competence scores of the active members.
    pub total_competence: u64,
    /// Number of active members.
    pub active_members: u8,
    /// Number of genesis members seeded so far.
    pub genesis_count: u8,
    /// Identifier the next event will get.
    pub event_counter: u64,
    /// Identifier the next proposal will get.
    pub proposal_counter: u64,
}

/// A member's standing, stored under the member's principal.
#[derive(Clone, Copy, Debug, PartialEq, Eq)]
pub struct Member {
    /// The member's principal.
    pub authority: Pubkey,
    /// Attendance reliability, in fixed-point units.
    pub presence_score: u64,
    /// Peer-assessed competence, in fixed-point units.
    pub competence_score: u64,
    /// Whether the member may act and counts towards the totals.
    pub is_active: bool,
    /// Whether the member was seeded at the founding.
    pub is_genesis: bool,
    /// When the member joined.
    pub joined_at: i64,
}

/// An event that members register for and attend, stored under its identifier.
#[derive(Clone, Debug, PartialEq, Eq)]
pub struct TrackSession {
    /// The event's identifier.
    pub id: u64,
    /// The principal who created the event and organizes it.
    pub creator: Pubkey,
    /// When the event starts.
    pub start_time: i64,
    /// What the event is about.
    pub description: String,
    /// Whether the event has been closed by its organizer.
    pub is_finalized: bool,
    /// Number of members currently registered.
    pub registered_count: u32,
    /// Number of attendances recorded.
    pub attended_count: u32,
}

/// A member's registration for an event, stored under the pair of both.
/// Withdrawing clears `is_registered`; the record stays.
#[derive(Clone, Copy, Debug, PartialEq, Eq)]
pub struct EventRegistration {
    /// The registered member's principal.
    pub member: Pubkey,
    /// The event's identifier.
    pub event_id: u64,
    /// Whether the member is currently registered.
    pub is_registered: bool,
    /// Whether the member's presence at the event has been recorded.
    pub has_attended: bool,
    /// When the member registered.
    pub registered_at: i64,
}

/// The rule by which a proposal passes.
#[derive(Clone, Copy, Debug, PartialEq, Eq, Structural)]
pub enum ProposalType {
    /// Passes with more than half of the voting power captured at creation.
    Critical,
    /// Passes with more weight for than against.
    Operational,
}

/// Where a proposal stands in its life.
#[derive(Clone, Copy, Debug, PartialEq, Eq, Structural)]
pub enum ProposalStatus {
    /// Votes are being taken, or the outcome has not been settled yet.
    Active,
    /// Settled: the proposal passed.
    Passed,
    /// Settled: the proposal did not pass.
    Rejected,
    /// Withdrawn. No operation of this crate sets it.
    Cancelled,
}

/// A proposal put to the members, stored under its identifier.
#[derive(Clone, Debug, PartialEq, Eq)]
pub struct Proposal {
    /// The proposal's identifier.
    pub id: u64,
    /// The principal who made the proposal.
    pub proposer: Pubkey,
    /// Short name of the proposal.
    pub title: String,
    /// What is proposed.
    pub description: String,
    /// The rule by which the proposal passes.
    pub proposal_type: ProposalType,
    /// Weight of the votes in favour.
    pub votes_for: u128,
    /// Weight of the votes against.
    pub votes_against: u128,
    /// Total voting power, as captured when the proposal was created.
    pub total_power_snapshot: u128,
    /// When the proposal was created.
    pub created_at: i64,
    /// When the voting window closes.
    pub voting_ends_at: i64,
    /// Where the proposal stands.
    pub status: ProposalStatus,
}

/// A member's vote on a proposal, stored under the pair of both.
#[derive(Clone, Copy, Debug, PartialEq, Eq)]
pub struct VoteRecord {
    /// The voter's principal.
    pub voter: Pubkey,
    /// The proposal's identifier.
    pub proposal_id: u64,
    /// Whether the vote was in favour.
    pub support: bool,
    /// The voter's weight when the vote was cast.
    pub weight: u128,
    /// Whether the vote has been cast.
    pub has_voted: bool,
}

} // verus!
