use vstd::prelude::*;
use crate::ledger::{Clock, Pubkey};
use crate::state::job_escrow::{JobEscrow, JobStatus};
use crate::utils::constants::now_ts;
use crate::utils::errors::TrustNetError;

verus! {

/// What the submission of a completed job works on: the provider who submits
/// and the job.
#[derive(Clone, Copy, Debug, PartialEq, Eq)]
pub struct SubmitCompletion {
    pub provider: Pubkey,
    pub job_key: Pubkey,
    pub job: JobEscrow,
}

/// Why a submission is refused, if it is: the first of these that holds.
pub open spec fn spec_submit_error(ctx: SubmitCompletion) -> Option<TrustNetError> {
    if ctx.job.provider@ != ctx.provider@ {
        Some(TrustNetError::Unauthorized)
    } else if ctx.job.status != JobStatus::Active {
        Some(TrustNetError::InvalidStatus)
    } else {
        None
    }
}

/// What a submission returns and leaves: the job submitted, with the time of
/// the submission.
pub open spec fn spec_submit_outcome(
    before: SubmitCompletion,
    after: SubmitCompletion,
    done: Result<(), TrustNetError>,
    now: i64,
) -> bool {
    match done {
        Ok(_) => {
            &&& spec_submit_error(before) is None
            &&& after == (SubmitCompletion {
                job: JobEscrow {
                    status: JobStatus::Submitted,
                    submitted_at: Some(now),
                    ..before.job
                },
                ..before
            })
        },
        Err(e) => spec_submit_error(before) == Some(e) && after == before,
    }
}

/// Records that the provider of an active job has completed it. The job
/// becomes submitted, with the time of the submission.
pub fn handler(ctx: &mut SubmitCompletion, _submission_hash: [u8; 32], clock: &Clock) -> (done:
    Result<(), TrustNetError>)
    ensures
        spec_submit_outcome(*old(ctx), *final(ctx), done, clock.unix_timestamp),
{
    if ctx.job.provider != ctx.provider {
        return Err(TrustNetError::Unauthorized);
    }
    if ctx.job.status != JobStatus::Active {
        return Err(TrustNetError::InvalidStatus);
    }
    ctx.job.status = JobStatus::Submitted;
    ctx.job.submitted_at = Some(now_ts(clock));
    Ok(())
}

} // verus!
