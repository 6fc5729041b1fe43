use vstd::prelude::*;
use crate::ledger::{Clock, Pubkey};
use crate::state::job_escrow::{JobEscrow, JobStatus};
use crate::state::reputation::{AgentReputation, Rating};
use crate::utils::constants::{now_ts, MAX_TAGS_LEN};
use crate::utils::errors::TrustNetError;
use crate::utils::math::{compute_rating_average, spec_rating_average};

verus! {

/// What a rating works on: the rater, the job rated, the record of the agent
/// rated, the bump of the rating's record, and the rating of this job by this
/// rater: none before the rater has rated the job.
#[derive(Clone, Debug, PartialEq, Eq)]
pub struct RateJob {
    pub rater: Pubkey,
    pub job: JobEscrow,
    pub ratee_reputation: AgentReputation,
    pub rating_bump: u8,
    pub rating: Option<Rating>,
}

/// Why a rating is refused, if it is: the first of these that holds. A rater
/// rates a job once: where its rating is recorded already, a second one is
/// refused and counts for nothing.
pub open spec fn spec_rate_error(ctx: RateJob, score: u8, tags: Seq<u8>) -> Option<TrustNetError> {
    if ctx.rating is Some {
        Some(TrustNetError::AlreadyRated)
    } else if score < 1 || score > 5 {
        Some(TrustNetError::RatingOutOfRange)
    } else if tags.len() > 64 {
        Some(TrustNetError::BytesTooLarge)
    } else if ctx.job.status != JobStatus::Completed && ctx.job.status != JobStatus::Resolved {
        Some(TrustNetError::InvalidStatus)
    } else {
        None
    }
}

/// A count of ratings after one more: it stops at the greatest 64-bit number.
pub open spec fn spec_count_after(count: u64) -> u64 {
    if count == u64::MAX {
        u64::MAX
    } else {
        (count + 1) as u64
    }
}

/// What a rating returns and leaves: the rating recorded, and the record of
/// the agent rated with its average and count brought up to date.
pub open spec fn spec_rate_outcome(
    before: RateJob,
    after: RateJob,
    done: Result<(), TrustNetError>,
    job_id: [u8; 32],
    score: u8,
    tags: Vec<u8>,
    comment_hash: [u8; 32],
    now: i64,
) -> bool {
    match done {
        Ok(_) => {
            &&& spec_rate_error(before, score, tags@) is None
            &&& after == (RateJob {
                rating: Some(
                    Rating {
                        job_id,
                        rater: before.rater,
                        ratee: before.ratee_reputation.agent,
                        score,
                        tags,
                        comment_hash,
                        timestamp: now,
                        bump: before.rating_bump,
                    },
                ),
                ratee_reputation: AgentReputation {
                    avg_rating: spec_rating_average(
                        before.ratee_reputation.avg_rating as int,
                        before.ratee_reputation.rating_count as int,
                        score as int,
                    ) as u16,
                    rating_count: spec_count_after(before.ratee_reputation.rating_count),
                    last_active: now,
                    ..before.ratee_reputation
                },
                ..before
            })
        },
        Err(e) => spec_rate_error(before, score, tags@) == Some(e) && after == before,
    }
}

/// Rates a job that has been completed or resolved with a score from 1 to 5,
/// and brings the average of the agent rated up to date. A job that the rater
/// has rated already is refused with `AlreadyRated`.
pub fn handler(
    ctx: &mut RateJob,
    job_id: [u8; 32],
    score: u8,
    tags: Vec<u8>,
    comment_hash: [u8; 32],
    clock: &Clock,
) -> (done: Result<(), TrustNetError>)
    ensures
        spec_rate_outcome(
            *old(ctx),
            *final(ctx),
            done,
            job_id,
            score,
            tags,
            comment_hash,
            clock.unix_timestamp,
        ),
{
    if ctx.rating.is_some() {
        return Err(TrustNetError::AlreadyRated);
    }
    if score < 1 || score > 5 {
        return Err(TrustNetError::RatingOutOfRange);
    }
    if tags.len() > MAX_TAGS_LEN {
        return Err(TrustNetError::BytesTooLarge);
    }
    if ctx.job.status != JobStatus::Completed && ctx.job.status != JobStatus::Resolved {
        return Err(TrustNetError::InvalidStatus);
    }
    let now: i64 = now_ts(clock);
    ctx.rating = Some(
        Rating {
            job_id,
            rater: ctx.rater,
            ratee: ctx.ratee_reputation.agent,
            score,
            tags,
            comment_hash,
            timestamp: now,
            bump: ctx.rating_bump,
        },
    );
    ctx.ratee_reputation.avg_rating = compute_rating_average(
        ctx.ratee_reputation.avg_rating,
        ctx.ratee_reputation.rating_count,
        score,
    );
    ctx.ratee_reputation.rating_count = ctx.ratee_reputation.rating_count.saturating_add(1);
    ctx.ratee_reputation.last_active = now;
    Ok(())
}

} // verus!
