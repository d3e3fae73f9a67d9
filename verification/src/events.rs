//! Events and attendance: creating an event, registering and withdrawing
//! with the late penalty, recording who came, and closing the event.

use vstd::prelude::*;
use crate::constants::{
    ATTENDANCE_REWARD,
    GHOSTING_PENALTY,
    LATE_PENALTY,
    OUBLI_PENALTY,
    SLOT_DURATION,
};
use crate::error::{answer, ErrorCode};
use crate::ledger::{balanced, column_sum_bounds, column_sum_update, Column};
use crate::pubkey::Pubkey;
use crate::quorum::{has_quorum, quorum_met};
use crate::records::{EventRegistration, Member, State, TrackSession};
use crate::scoring::{clamped_penalty, credit, slash};

verus! {

/// Whether `now` lies in the late window of an event that starts at
/// `start_time`: less than a slot before the start.
pub open spec fn in_late_window(start_time: i64, now: i64) -> bool {
    start_time - now < SLOT_DURATION
}

/// The presence that a late registration or withdrawal removes from a
/// member with the given balance: nothing outside the late window.
pub open spec fn late_fee(start_time: i64, now: i64, balance: u64) -> u64 {
    if in_late_window(start_time, now) {
        clamped_penalty(LATE_PENALTY, balance)
    } else {
        0
    }
}

/// The records that creating an event touches.
#[derive(Clone, Debug, PartialEq, Eq)]
pub struct CreateEvent {
    /// The ledger. Its event counter is advanced.
    pub state: State,
    /// The new event's record. Written.
    pub event: TrackSession,
    /// The caller's member record. Read.
    pub member: Member,
    /// The caller, who becomes the event's organizer.
    pub creator: Pubkey,
}

impl CreateEvent {
    /// Why the event is not created, if it is not.
    /// Where several conditions hold, the first one listed decides.
    pub open spec fn rejection(&self, now: i64, start_time: i64) -> Option<ErrorCode> {
        if !has_quorum(self.state) {
            Some(ErrorCode::DaoShutdown)
        } else if !self.member.is_active {
            Some(ErrorCode::MemberNotActive)
        } else if start_time <= now {
            Some(ErrorCode::InvalidEventTime)
        } else if self.state.event_counter + 1 > u64::MAX {
            Some(ErrorCode::ArithmeticOverflow)
        } else {
            None
        }
    }

    /// The records after the event has been created.
    pub open spec fn outcome(&self, start_time: i64, description: String) -> CreateEvent {
        CreateEvent {
            state: State {
                event_counter: (self.state.event_counter + 1) as u64,
                ..self.state
            },
            event: TrackSession {
                id: self.state.event_counter,
                creator: self.creator,
                start_time,
                description,
                is_finalized: false,
                registered_count: 0,
                attended_count: 0,
            },
            member: self.member,
            creator: self.creator,
        }
    }
}

/// Creates an event that starts at `start_time`, which must lie after
/// `now`, under the next free identifier.
pub fn create_event(
    ctx: &mut CreateEvent,
    now: i64,
    start_time: i64,
    description: String,
) -> (result: Result<(), ErrorCode>)
    ensures
        result == answer(old(ctx).rejection(now, start_time)),
        old(ctx).rejection(now, start_time) is None ==> *final(ctx) == old(ctx).outcome(
            start_time,
            description,
        ),
        old(ctx).rejection(now, start_time) is Some ==> *final(ctx) == *old(ctx),
{
    if !quorum_met(&ctx.state) {
        return Err(ErrorCode::DaoShutdown);
    }
    if !ctx.member.is_active {
        return Err(ErrorCode::MemberNotActive);
    }
    if start_time <= now {
        return Err(ErrorCode::InvalidEventTime);
    }
    let next_id = match ctx.state.event_counter.checked_add(1) {
        Some(next_id) => next_id,
        None => {
            return Err(ErrorCode::ArithmeticOverflow);
        },
    };
    ctx.event = TrackSession {
        id: ctx.state.event_counter,
        creator: ctx.creator,
        start_time,
        description,
        is_finalized: false,
        registered_count: 0,
        attended_count: 0,
    };
    ctx.state.event_counter = next_id;
    Ok(())
}

/// The records that registering for an event touches. That no registration
/// of this member for this event is stored yet is for the store to see to
/// when it creates the record.
#[derive(Clone, Debug, PartialEq, Eq)]
pub struct RegisterForEvent {
    /// The ledger. A late fee is taken out of its presence total.
    pub state: State,
    /// The event. Its count of registrations is raised.
    pub event: TrackSession,
    /// The caller's member record. A late fee is taken out of its presence.
    pub member: Member,
    /// The new registration's record. Written.
    pub registration: EventRegistration,
    /// The caller.
    pub authority: Pubkey,
}

impl RegisterForEvent {
    /// Why the member is not registered, if they are not.
    /// Where several conditions hold, the first one listed decides.
    pub open spec fn rejection(&self, now: i64) -> Option<ErrorCode> {
        if !has_quorum(self.state) {
            Some(ErrorCode::DaoShutdown)
        } else if !self.member.is_active {
            Some(ErrorCode::MemberNotActive)
        } else if self.event.is_finalized {
            Some(ErrorCode::EventAlreadyFinalized)
        } else if now >= self.event.start_time {
            Some(ErrorCode::EventAlreadyStarted)
        } else if self.event.start_time - now > i64::MAX {
            Some(ErrorCode::ArithmeticOverflow)
        } else if self.state.total_presence < late_fee(
            self.event.start_time,
            now,
            self.member.presence_score,
        ) {
            Some(ErrorCode::SlashingOverflow)
        } else if self.event.registered_count + 1 > u32::MAX {
            Some(ErrorCode::ArithmeticOverflow)
        } else {
            None
        }
    }

    /// The records after the member has been registered.
    pub open spec fn outcome(&self, now: i64) -> RegisterForEvent {
        let fee = late_fee(self.event.start_time, now, self.member.presence_score);
        RegisterForEvent {
            state: State {
                total_presence: (self.state.total_presence - fee) as u64,
                ..self.state
            },
            event: TrackSession {
                registered_count: (self.event.registered_count + 1) as u32,
                ..self.event
            },
            member: Member {
                presence_score: (self.member.presence_score - fee) as u64,
                ..self.member
            },
            registration: EventRegistration {
                member: self.member.authority,
                event_id: self.event.id,
                is_registered: true,
                has_attended: false,
                registered_at: now,
            },
            authority: self.authority,
        }
    }
}

/// Registers the caller for an event that has not started. Inside the late
/// window the late penalty is taken, as far as the member's presence goes,
/// out of the member's presence and out of the total.
pub fn register_for_event(ctx: &mut RegisterForEvent, now: i64) -> (result: Result<(), ErrorCode>)
    ensures
        result == answer(old(ctx).rejection(now)),
        old(ctx).rejection(now) is None ==> *final(ctx) == old(ctx).outcome(now),
        old(ctx).rejection(now) is Some ==> *final(ctx) == *old(ctx),
{
    if !quorum_met(&ctx.state) {
        return Err(ErrorCode::DaoShutdown);
    }
    if !ctx.member.is_active {
        return Err(ErrorCode::MemberNotActive);
    }
    if ctx.event.is_finalized {
        return Err(ErrorCode::EventAlreadyFinalized);
    }
    if now >= ctx.event.start_time {
        return Err(ErrorCode::EventAlreadyStarted);
    }
    let time_until_event = match ctx.event.start_time.checked_sub(now) {
        Some(time_until_event) => time_until_event,
        None => {
            return Err(ErrorCode::ArithmeticOverflow);
        },
    };
    let mut presence_score = ctx.member.presence_score;
    let mut total_presence = ctx.state.total_presence;
    if time_until_event < SLOT_DURATION {
        match slash(presence_score, total_presence, LATE_PENALTY) {
            Ok((score, total)) => {
                presence_score = score;
                total_presence = total;
            },
            Err(code) => {
                return Err(code);
            },
        }
    }
    let registered_count = match ctx.event.registered_count.checked_add(1) {
        Some(registered_count) => registered_count,
        None => {
            return Err(ErrorCode::ArithmeticOverflow);
        },
    };
    ctx.member.presence_score = presence_score;
    ctx.state.total_presence = total_presence;
    ctx.registration = EventRegistration {
        member: ctx.member.authority,
        event_id: ctx.event.id,
        is_registered: true,
        has_attended: false,
        registered_at: now,
    };
    ctx.event.registered_count = registered_count;
    Ok(())
}

/// The records that withdrawing from an event touches.
#[derive(Clone, Debug, PartialEq, Eq)]
pub struct WithdrawFromEvent {
    /// The ledger. A late fee is taken out of its presence total.
    pub state: State,
    /// The event. Its count of registrations is lowered.
    pub event: TrackSession,
    /// The caller's member record. A late fee is taken out of its presence.
    pub member: Member,
    /// The caller's registration for the event. Marked as withdrawn.
    pub registration: EventRegistration,
    /// The caller.
    pub authority: Pubkey,
}

impl WithdrawFromEvent {
    /// Why the registration is not withdrawn, if it is not.
    /// Where several conditions hold, the first one listed decides.
    pub open spec fn rejection(&self, now: i64) -> Option<ErrorCode> {
        if !has_quorum(self.state) {
            Some(ErrorCode::DaoShutdown)
        } else if !self.member.is_active {
            Some(ErrorCode::MemberNotActive)
        } else if self.registration.member != self.authority {
            Some(ErrorCode::Unauthorized)
        } else if self.event.is_finalized {
            Some(ErrorCode::EventAlreadyFinalized)
        } else if now >= self.event.start_time {
            Some(ErrorCode::EventAlreadyStarted)
        } else if !self.registration.is_registered {
            Some(ErrorCode::NotRegistered)
        } else if self.event.start_time - now > i64::MAX {
            Some(ErrorCode::ArithmeticOverflow)
        } else if self.state.total_presence < late_fee(
            self.event.start_time,
            now,
            self.member.presence_score,
        ) {
            Some(ErrorCode::SlashingOverflow)
        } else if self.event.registered_count == 0 {
            Some(ErrorCode::ArithmeticOverflow)
        } else {
            None
        }
    }

    /// The records after the registration has been withdrawn.
    pub open spec fn outcome(&self, now: i64) -> WithdrawFromEvent {
        let fee = late_fee(self.event.start_time, now, self.member.presence_score);
        WithdrawFromEvent {
            state: State {
                total_presence: (self.state.total_presence - fee) as u64,
                ..self.state
            },
            event: TrackSession {
                registered_count: (self.event.registered_count - 1) as u32,
                ..self.event
            },
            member: Member {
                presence_score: (self.member.presence_score - fee) as u64,
                ..self.member
            },
            registration: EventRegistration { is_registered: false, ..self.registration },
            authority: self.authority,
        }
    }
}

/// Withdraws the caller's registration from an event that has not started.
/// The registration record stays, marked as withdrawn. The late penalty
/// applies as it does to registering.
pub fn withdraw_from_event(ctx: &mut WithdrawFromEvent, now: i64) -> (result: Result<(), ErrorCode>)
    ensures
        result == answer(old(ctx).rejection(now)),
        old(ctx).rejection(now) is None ==> *final(ctx) == old(ctx).outcome(now),
        old(ctx).rejection(now) is Some ==> *final(ctx) == *old(ctx),
{
    if !quorum_met(&ctx.state) {
        return Err(ErrorCode::DaoShutdown);
    }
    if !ctx.member.is_active {
        return Err(ErrorCode::MemberNotActive);
    }
    if ctx.registration.member != ctx.authority {
        return Err(ErrorCode::Unauthorized);
    }
    if ctx.event.is_finalized {
        return Err(ErrorCode::EventAlreadyFinalized);
    }
    if now >= ctx.event.start_time {
        return Err(ErrorCode::EventAlreadyStarted);
    }
    if !ctx.registration.is_registered {
        return Err(ErrorCode::NotRegistered);
    }
    let time_until_event = match ctx.event.start_time.checked_sub(now) {
        Some(time_until_event) => time_until_event,
        None => {
            return Err(ErrorCode::ArithmeticOverflow);
        },
    };
    let mut presence_score = ctx.member.presence_score;
    let mut total_presence = ctx.state.total_presence;
    if time_until_event < SLOT_DURATION {
        match slash(presence_score, total_presence, LATE_PENALTY) {
            Ok((score, total)) => {
                presence_score = score;
                total_presence = total;
            },
            Err(code) => {
                return Err(code);
            },
        }
    }
    let registered_count = match ctx.event.registered_count.checked_sub(1) {
        Some(registered_count) => registered_count,
        None => {
            return Err(ErrorCode::ArithmeticOverflow);
        },
    };
    ctx.member.presence_score = presence_score;
    ctx.state.total_presence = total_presence;
    ctx.registration.is_registered = false;
    ctx.event.registered_count = registered_count;
    Ok(())
}

/// What became of a member at an event, from whether they were registered
/// and whether they came.
#[derive(Clone, Copy, Debug, PartialEq, Eq, Structural)]
pub enum Attendance {
    /// Registered and present: rewarded.
    Attended,
    /// Registered and absent: penalized.
    Ghosting,
    /// Present without being registered: penalized.
    Oubli,
    /// Neither registered nor present: nothing happens.
    Uninvolved,
}

/// Which of the four cases applies.
pub open spec fn attendance_case(was_registered: bool, was_present: bool) -> Attendance {
    match (was_registered, was_present) {
        (true, true) => Attendance::Attended,
        (true, false) => Attendance::Ghosting,
        (false, true) => Attendance::Oubli,
        (false, false) => Attendance::Uninvolved,
    }
}

/// The presence of a member with the given balance after the attendance
/// case has been applied: the reward added, or the penalty taken as far as
/// the balance goes.
pub open spec fn presence_after(case: Attendance, balance: u64) -> int {
    match case {
        Attendance::Attended => balance + ATTENDANCE_REWARD,
        Attendance::Ghosting => balance - clamped_penalty(GHOSTING_PENALTY, balance),
        Attendance::Oubli => balance - clamped_penalty(OUBLI_PENALTY, balance),
        Attendance::Uninvolved => balance as int,
    }
}

/// Tells which of the four cases applies.
pub fn classify_attendance(was_registered: bool, was_present: bool) -> (case: Attendance)
    ensures
        case == attendance_case(was_registered, was_present),
{
    if was_registered && was_present {
        Attendance::Attended
    } else if was_registered {
        Attendance::Ghosting
    } else if was_present {
        Attendance::Oubli
    } else {
        Attendance::Uninvolved
    }
}

/// The records that recording a member's attendance touches.
#[derive(Clone, Debug, PartialEq, Eq)]
pub struct RecordAttendance {
    /// The ledger. Its presence total follows the member's presence.
    pub state: State,
    /// The event. Its count of attendances is raised for a member present.
    pub event: TrackSession,
    /// The record of the member whose attendance is recorded. Its presence
    /// is rewarded or penalized.
    pub member: Member,
    /// The principal of that member.
    pub member_authority: Pubkey,
    /// That member's registration for the event. Marked as attended for a
    /// member present.
    pub registration: EventRegistration,
    /// The caller's member record. Read.
    pub organizer_member: Member,
    /// The caller, who must be the event's organizer.
    pub organizer: Pubkey,
}

impl RecordAttendance {
    /// Which of the four cases applies.
    pub open spec fn case(&self, was_present: bool) -> Attendance {
        attendance_case(self.registration.is_registered, was_present)
    }

    /// Why the attendance is not recorded, if it is not.
    /// Where several conditions hold, the first one listed decides.
    pub open spec fn rejection(&self, now: i64, was_present: bool) -> Option<ErrorCode> {
        let after = presence_after(self.case(was_present), self.member.presence_score);
        let change = after - self.member.presence_score;
        if !has_quorum(self.state) {
            Some(ErrorCode::DaoShutdown)
        } else if self.event.creator != self.organizer {
            Some(ErrorCode::Unauthorized)
        } else if !self.organizer_member.is_active {
            Some(ErrorCode::MemberNotActive)
        } else if now < self.event.start_time {
            Some(ErrorCode::EventNotStartedYet)
        } else if after > u64::MAX || self.state.total_presence + change > u64::MAX {
            Some(ErrorCode::ArithmeticOverflow)
        } else if self.state.total_presence + change < 0 {
            Some(ErrorCode::SlashingOverflow)
        } else if was_present && self.event.attended_count + 1 > u32::MAX {
            Some(ErrorCode::ArithmeticOverflow)
        } else {
            None
        }
    }

    /// The records after the attendance has been recorded. The total moves
    /// by exactly what the member's presence moves by.
    pub open spec fn outcome(&self, was_present: bool) -> RecordAttendance {
        let after = presence_after(self.case(was_present), self.member.presence_score);
        let change = after - self.member.presence_score;
        RecordAttendance {
            state: State {
                total_presence: (self.state.total_presence + change) as u64,
                ..self.state
            },
            event: TrackSession {
                attended_count: if was_present {
                    (self.event.attended_count + 1) as u32
                } else {
                    self.event.attended_count
                },
                ..self.event
            },
            member: Member { presence_score: after as u64, ..self.member },
            member_authority: self.member_authority,
            registration: EventRegistration {
                has_attended: was_present || self.registration.has_attended,
                ..self.registration
            },
            organizer_member: self.organizer_member,
            organizer: self.organizer,
        }
    }
}

/// Records, on behalf of the event's organizer and once the event has
/// started, whether a member was present, and rewards or penalizes the
/// member's presence by the case that applies.
pub fn record_attendance(
    ctx: &mut RecordAttendance,
    now: i64,
    was_present: bool,
) -> (result: Result<(), ErrorCode>)
    ensures
        result == answer(old(ctx).rejection(now, was_present)),
        old(ctx).rejection(now, was_present) is None ==> *final(ctx) == old(ctx).outcome(
            was_present,
        ),
        old(ctx).rejection(now, was_present) is Some ==> *final(ctx) == *old(ctx),
{
    if !quorum_met(&ctx.state) {
        return Err(ErrorCode::DaoShutdown);
    }
    if ctx.event.creator != ctx.organizer {
        return Err(ErrorCode::Unauthorized);
    }
    if !ctx.organizer_member.is_active {
        return Err(ErrorCode::MemberNotActive);
    }
    if now < ctx.event.start_time {
        return Err(ErrorCode::EventNotStartedYet);
    }
    let presence_score = ctx.member.presence_score;
    let total_presence = ctx.state.total_presence;
    let settled = match classify_attendance(ctx.registration.is_registered, was_present) {
        Attendance::Attended => credit(presence_score, total_presence, ATTENDANCE_REWARD),
        Attendance::Ghosting => slash(presence_score, total_presence, GHOSTING_PENALTY),
        Attendance::Oubli => slash(presence_score, total_presence, OUBLI_PENALTY),
        Attendance::Uninvolved => Ok((presence_score, total_presence)),
    };
    let (new_score, new_total) = match settled {
        Ok(pair) => pair,
        Err(code) => {
            return Err(code);
        },
    };
    let mut attended_count = ctx.event.attended_count;
    if was_present {
        attended_count = match attended_count.checked_add(1) {
            Some(attended_count) => attended_count,
            None => {
                return Err(ErrorCode::ArithmeticOverflow);
            },
        };
        ctx.registration.has_attended = true;
    }
    ctx.member.presence_score = new_score;
    ctx.state.total_presence = new_total;
    ctx.event.attended_count = attended_count;
    Ok(())
}

/// The records that closing an event touches.
#[derive(Clone, Debug, PartialEq, Eq)]
pub struct FinalizeEvent {
    /// The ledger. Read.
    pub state: State,
    /// The event. Marked as finalized.
    pub event: TrackSession,
    /// The caller's member record. Read.
    pub organizer_member: Member,
    /// The caller, who must be the event's organizer.
    pub organizer: Pubkey,
}

impl FinalizeEvent {
    /// Why the event is not closed, if it is not.
    /// Where several conditions hold, the first one listed decides.
    pub open spec fn rejection(&self, now: i64) -> Option<ErrorCode> {
        if !has_quorum(self.state) {
            Some(ErrorCode::DaoShutdown)
        } else if self.event.creator != self.organizer {
            Some(ErrorCode::Unauthorized)
        } else if !self.organizer_member.is_active {
            Some(ErrorCode::MemberNotActive)
        } else if self.event.is_finalized {
            Some(ErrorCode::EventAlreadyFinalized)
        } else if now < self.event.start_time {
            Some(ErrorCode::EventNotStartedYet)
        } else {
            None
        }
    }

    /// The records after the event has been closed.
    pub open spec fn outcome(&self) -> FinalizeEvent {
        FinalizeEvent {
            state: self.state,
            event: TrackSession { is_finalized: true, ..self.event },
            organizer_member: self.organizer_member,
            organizer: self.organizer,
        }
    }
}

/// Closes an event on behalf of its organizer, once it has started. A
/// closed event takes no more registrations or withdrawals and cannot be
/// closed again. Recording attendance does not look at the mark.
pub fn finalize_event(ctx: &mut FinalizeEvent, now: i64) -> (result: Result<(), ErrorCode>)
    ensures
        result == answer(old(ctx).rejection(now)),
        old(ctx).rejection(now) is None ==> *final(ctx) == old(ctx).outcome(),
        old(ctx).rejection(now) is Some ==> *final(ctx) == *old(ctx),
{
    if !quorum_met(&ctx.state) {
        return Err(ErrorCode::DaoShutdown);
    }
    if ctx.event.creator != ctx.organizer {
        return Err(ErrorCode::Unauthorized);
    }
    if !ctx.organizer_member.is_active {
        return Err(ErrorCode::MemberNotActive);
    }
    if ctx.event.is_finalized {
        return Err(ErrorCode::EventAlreadyFinalized);
    }
    if now < ctx.event.start_time {
        return Err(ErrorCode::EventNotStartedYet);
    }
    ctx.event.is_finalized = true;
    Ok(())
}

/// Registering a member of the roster keeps the ledger in agreement with
/// the roster, in which the member's record is replaced.
pub proof fn registration_keeps_balance(
    roster: Seq<Member>,
    at: int,
    ctx: RegisterForEvent,
    now: i64,
)
    requires
        0 <= at < roster.len(),
        roster[at] == ctx.member,
        balanced(ctx.state, roster),
        ctx.rejection(now) is None,
    ensures
        balanced(ctx.outcome(now).state, roster.update(at, ctx.outcome(now).member)),
{
    let member = ctx.outcome(now).member;
    column_sum_update(roster, at, member, Column::Presence);
    column_sum_update(roster, at, member, Column::Competence);
    column_sum_update(roster, at, member, Column::Headcount);
}

/// Withdrawing a member of the roster keeps the ledger in agreement with
/// the roster, in which the member's record is replaced.
pub proof fn withdrawal_keeps_balance(
    roster: Seq<Member>,
    at: int,
    ctx: WithdrawFromEvent,
    now: i64,
)
    requires
        0 <= at < roster.len(),
        roster[at] == ctx.member,
        balanced(ctx.state, roster),
        ctx.rejection(now) is None,
    ensures
        balanced(ctx.outcome(now).state, roster.update(at, ctx.outcome(now).member)),
{
    let member = ctx.outcome(now).member;
    column_sum_update(roster, at, member, Column::Presence);
    column_sum_update(roster, at, member, Column::Competence);
    column_sum_update(roster, at, member, Column::Headcount);
}

/// Recording the attendance of an active member of the roster keeps the
/// ledger in agreement with the roster, in which the member's record is
/// replaced. So does recording that of an inactive one where it leaves the
/// presence as it was.
pub proof fn attendance_keeps_balance(
    roster: Seq<Member>,
    at: int,
    ctx: RecordAttendance,
    now: i64,
    was_present: bool,
)
    requires
        0 <= at < roster.len(),
        roster[at] == ctx.member,
        balanced(ctx.state, roster),
        ctx.rejection(now, was_present) is None,
        ctx.member.is_active || ctx.outcome(was_present).member.presence_score
            == ctx.member.presence_score,
    ensures
        balanced(
            ctx.outcome(was_present).state,
            roster.update(at, ctx.outcome(was_present).member),
        ),
{
    let member = ctx.outcome(was_present).member;
    column_sum_update(roster, at, member, Column::Presence);
    column_sum_update(roster, at, member, Column::Competence);
    column_sum_update(roster, at, member, Column::Headcount);
}

/// A ledger that agrees with the roster holds every penalty that an active
/// member of the roster can incur: none of the three operations is refused
/// for want of it.
pub proof fn balanced_ledger_covers_penalties(
    roster: Seq<Member>,
    at: int,
    registering: RegisterForEvent,
    withdrawing: WithdrawFromEvent,
    recording: RecordAttendance,
    now: i64,
    was_present: bool,
)
    requires
        0 <= at < roster.len(),
        roster[at].is_active,
        registering.member == roster[at],
        withdrawing.member == roster[at],
        recording.member == roster[at],
        balanced(registering.state, roster),
        balanced(withdrawing.state, roster),
        balanced(recording.state, roster),
    ensures
        registering.rejection(now) != Some(ErrorCode::SlashingOverflow),
        withdrawing.rejection(now) != Some(ErrorCode::SlashingOverflow),
        recording.rejection(now, was_present) != Some(ErrorCode::SlashingOverflow),
{
    column_sum_bounds(roster, Column::Presence);
}

/// Registering and withdrawing move the total by exactly what they move
/// the member's presence by. Inside the late window a member with no more
/// presence than the late penalty is left at exactly zero, and the total
/// goes down by what the member had.
pub proof fn late_fee_moves_total_with_member(
    registering: RegisterForEvent,
    withdrawing: WithdrawFromEvent,
    now: i64,
)
    ensures
        registering.rejection(now) is None ==> {
            let after = registering.outcome(now);
            &&& registering.state.total_presence - after.state.total_presence
                == registering.member.presence_score - after.member.presence_score
            &&& in_late_window(registering.event.start_time, now)
                && registering.member.presence_score <= LATE_PENALTY
                ==> after.member.presence_score == 0
        },
        withdrawing.rejection(now) is None ==> {
            let after = withdrawing.outcome(now);
            &&& withdrawing.state.total_presence - after.state.total_presence
                == withdrawing.member.presence_score - after.member.presence_score
            &&& in_late_window(withdrawing.event.start_time, now)
                && withdrawing.member.presence_score <= LATE_PENALTY
                ==> after.member.presence_score == 0
        },
{
}

/// Recording attendance moves the total by exactly what it moves the
/// member's presence by. A penalized member with no more presence than
/// the penalty is left at exactly zero, and the total goes down by what
/// the member had.
pub proof fn attendance_moves_total_with_member(
    ctx: RecordAttendance,
    now: i64,
    was_present: bool,
)
    requires
        ctx.rejection(now, was_present) is None,
    ensures
        ctx.outcome(was_present).state.total_presence - ctx.state.total_presence
            == ctx.outcome(was_present).member.presence_score - ctx.member.presence_score,
        ctx.case(was_present) == Attendance::Ghosting && ctx.member.presence_score
            <= GHOSTING_PENALTY ==> ctx.outcome(was_present).member.presence_score == 0
            && ctx.state.total_presence - ctx.outcome(was_present).state.total_presence
            == ctx.member.presence_score,
        ctx.case(was_present) == Attendance::Oubli && ctx.member.presence_score
            <= OUBLI_PENALTY ==> ctx.outcome(was_present).member.presence_score == 0
            && ctx.state.total_presence - ctx.outcome(was_present).state.total_presence
            == ctx.member.presence_score,
{
}

/// Creating and closing an event leave the ledger in agreement with the
/// roster, which they do not touch.
pub proof fn event_bookkeeping_keeps_balance(
    roster: Seq<Member>,
    creating: CreateEvent,
    closing: FinalizeEvent,
    start_time: i64,
    description: String,
)
    ensures
        balanced(creating.state, roster) ==> balanced(
            creating.outcome(start_time, description).state,
            roster,
        ),
        balanced(closing.state, roster) ==> balanced(closing.outcome().state, roster),
{
}

} // verus!
