use vstd::prelude::*;
use crate::ledger::Clock;

verus! {

/// Least stake, in lamports, with which an agent may open a reputation record.
pub const MIN_REPUTATION_STAKE_LAMPORTS: u64 = 100_000_000;

/// Least stake, in lamports, with which an arbiter may register.
pub const MIN_ARBITER_STAKE_LAMPORTS: u64 = 1_000_000_000;

/// Protocol fee on a provider payout, in basis points of the job's amount.
pub const PROTOCOL_FEE_BPS: u64 = 10;

/// One whole, in basis points.
pub const BPS_DENOMINATOR: u64 = 10_000;

/// Fee moved into the dispute's pool when a dispute is raised, in basis points
/// of the job's amount.
pub const DISPUTE_FEE_BPS: u64 = 100;

/// Time after the deadline before an automatic completion may be claimed.
pub const GRACE_PERIOD_SECONDS: i64 = 3600;

/// Length of the commit phase of a dispute.
pub const COMMIT_WINDOW_SECONDS: i64 = 3600;

/// Length of the reveal phase, counted from the commit deadline.
pub const REVEAL_WINDOW_SECONDS: i64 = 3600;

/// Most bytes of tags that a rating may carry.
pub const MAX_TAGS_LEN: usize = 64;

/// Most bytes of specializations that an agent or arbiter may carry.
pub const MAX_SPECIALIZATIONS_LEN: usize = 64;

/// Stake slashed from an arbiter who did not reveal in time, in basis points.
pub const NO_REVEAL_SLASH_BPS: u64 = 200;

/// Stake slashed from an arbiter who voted against the outcome, in basis points.
pub const WRONG_VOTE_SLASH_BPS: u64 = 100;

/// Share of the revealed weight, in percent, that decides a dispute outright.
pub const SUPERMAJORITY_PERCENT: u64 = 60;

/// The accuracy score a new arbiter starts with: the middle of the scale.
pub const INITIAL_ACCURACY_SCORE: u16 = 500;

/// The wall-clock time that a clock reading carries.
pub fn now_ts(clock: &Clock) -> (now: i64)
    ensures
        now == clock.unix_timestamp,
{
    clock.unix_timestamp
}

} // verus!
