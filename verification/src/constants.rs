//! Fixed-point scale and the rule constants of the organization.

use vstd::prelude::*;

verus! {

/// One unit of reputation in the fixed-point representation of scores.
pub const SCALING_FACTOR: u64 = 1_000_000_000;

/// Fewest active members with which the organization still operates.
pub const MIN_QUORUM: u8 = 3;

/// Most genesis members that may ever be seeded.
pub const MAX_GENESIS_MEMBERS: u8 = 3;

/// Length in seconds of the window before an event in which registering or
/// withdrawing counts as late.
pub const SLOT_DURATION: i64 = 86400;

/// Presence score a genesis member starts with.
pub const GENESIS_PRESENCE: u64 = 3 * SCALING_FACTOR;

/// Competence score a genesis member starts with.
pub const GENESIS_COMPETENCE: u64 = 10 * SCALING_FACTOR;

/// Presence score a coopted member starts with.
pub const COOPTED_PRESENCE: u64 = 1 * SCALING_FACTOR;

/// Competence score a coopted member starts with.
pub const COOPTED_COMPETENCE: u64 = 1 * SCALING_FACTOR;

/// Nominal presence penalty for a late registration or a late withdrawal.
pub const LATE_PENALTY: u64 = 1 * SCALING_FACTOR;

/// Nominal presence penalty for a registered member who did not attend.
pub const GHOSTING_PENALTY: u64 = 2 * SCALING_FACTOR;

/// Nominal presence penalty for a member who attended without being registered.
pub const OUBLI_PENALTY: u64 = 2 * SCALING_FACTOR;

/// Presence reward for a registered member who attended.
pub const ATTENDANCE_REWARD: u64 = 1 * SCALING_FACTOR;

} // verus!
