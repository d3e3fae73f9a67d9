//! The named conditions under which an operation is refused.

use vstd::prelude::*;

verus! {

/// Why an operation was refused. A refused operation changes nothing.
#[derive(Clone, Copy, Debug, PartialEq, Eq, Structural)]
pub enum ErrorCode {
    /// The organization is frozen: fewer than the quorum of members are active.
    DaoShutdown,
    /// The event's start time has been reached.
    EventAlreadyStarted,
    /// All genesis seats have been taken.
    GenesisClosed,
    /// The caller's voting weight is zero.
    InsufficientReputation,
    /// A total is smaller than the amount to remove from it.
    SlashingOverflow,
    /// A sum, product, difference or counter left the range of its type.
    ArithmeticOverflow,
    /// A member who must be active is not.
    MemberNotActive,
    /// The member is not currently registered for the event.
    NotRegistered,
    /// The event has been finalized.
    EventAlreadyFinalized,
    /// The event's start time has not been reached.
    EventNotStartedYet,
    /// The start time of a new event is not in the future.
    InvalidEventTime,
    /// The caller does not hold the role the operation asks for.
    Unauthorized,
    /// The proposal has left the `Active` status.
    ProposalNotActive,
    /// The proposal's voting window has closed.
    VotingPeriodEnded,
    /// The proposal's voting window is still open.
    VotingPeriodNotEnded,
    /// The voter has already voted on the proposal.
    AlreadyVoted,
}

/// What an operation returns: the refusal, where there is one.
pub open spec fn answer(rejection: Option<ErrorCode>) -> Result<(), ErrorCode> {
    match rejection {
        Some(code) => Err(code),
        None => Ok(()),
    }
}

impl ErrorCode {
    /// The text shown to a person for this condition.
    pub open spec fn message_text(self) -> Seq<char> {
        match self {
            ErrorCode::DaoShutdown => "DAO is frozen: less than 3 active members"@,
            ErrorCode::EventAlreadyStarted => "Event has already started"@,
            ErrorCode::GenesisClosed => "Genesis member limit reached (max 3)"@,
            ErrorCode::InsufficientReputation => "Insufficient reputation to perform this action"@,
            ErrorCode::SlashingOverflow => "Cannot slash: would result in negative balance"@,
            ErrorCode::ArithmeticOverflow => "Arithmetic overflow"@,
            ErrorCode::MemberNotActive => "Member is not active"@,
            ErrorCode::NotRegistered => "Not registered for this event"@,
            ErrorCode::EventAlreadyFinalized => "Event has already been finalized"@,
            ErrorCode::EventNotStartedYet => "Event has not started yet"@,
            ErrorCode::InvalidEventTime => "Invalid event time"@,
            ErrorCode::Unauthorized => "Unauthorized action"@,
            ErrorCode::ProposalNotActive => "Proposal is not active"@,
            ErrorCode::VotingPeriodEnded => "Voting period has ended"@,
            ErrorCode::VotingPeriodNotEnded => "Voting period has not ended yet"@,
            ErrorCode::AlreadyVoted => "Already voted on this proposal"@,
        }
    }

    /// The text shown to a person for this condition.
    pub fn message(&self) -> (text: &'static str)
        ensures
            text@ == self.message_text(),
    {
        match self {
            ErrorCode::DaoShutdown => "DAO is frozen: less than 3 active members",
            ErrorCode::EventAlreadyStarted => "Event has already started",
            ErrorCode::GenesisClosed => "Genesis member limit reached (max 3)",
            ErrorCode::InsufficientReputation => "Insufficient reputation to perform this action",
            ErrorCode::SlashingOverflow => "Cannot slash: would result in negative balance",
            ErrorCode::ArithmeticOverflow => "Arithmetic overflow",
            ErrorCode::MemberNotActive => "Member is not active",
            ErrorCode::NotRegistered => "Not registered for this event",
            ErrorCode::EventAlreadyFinalized => "Event has already been finalized",
            ErrorCode::EventNotStartedYet => "Event has not started yet",
            ErrorCode::InvalidEventTime => "Invalid event time",
            ErrorCode::Unauthorized => "Unauthorized action",
            ErrorCode::ProposalNotActive => "Proposal is not active",
            ErrorCode::VotingPeriodEnded => "Voting period has ended",
            ErrorCode::VotingPeriodNotEnded => "Voting period has not ended yet",
            ErrorCode::AlreadyVoted => "Already voted on this proposal",
        }
    }
}

} // verus!
