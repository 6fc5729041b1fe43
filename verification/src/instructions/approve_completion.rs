use vstd::prelude::*;
use crate::instructions::settlement::{
    release_to_provider,
    spec_drained,
    spec_release_transfers,
    spec_vault_balanced,
};
use crate::ledger::{Clock, Pubkey, Transfer, Vault};
use crate::state::job_escrow::{JobEscrow, JobStatus, VerifyType};
use crate::utils::constants::now_ts;
use crate::utils::errors::TrustNetError;

verus! {

/// What the approval of a submitted job works on: the party who approves, the
/// job, its vault and the treasury that takes the fee.
#[derive(Clone, Copy, Debug, PartialEq, Eq)]
pub struct ApproveCompletion {
    pub approver: Pubkey,
    pub job_key: Pubkey,
    pub job: JobEscrow,
    pub job_vault: Vault,
    pub treasury: Pubkey,
}

/// The policies under which an approval completes a job.
pub open spec fn spec_by_approval(verification_type: VerifyType) -> bool {
    verification_type == VerifyType::ClientApproval || verification_type == VerifyType::PeerReview
        || verification_type == VerifyType::ZkVerify
}

/// Why an approval is refused, if it is: the first of these that holds.
pub open spec fn spec_approve_error(ctx: ApproveCompletion) -> Option<TrustNetError> {
    if ctx.job.client@ != ctx.approver@ {
        Some(TrustNetError::Unauthorized)
    } else if ctx.job.status != JobStatus::Submitted {
        Some(TrustNetError::InvalidStatus)
    } else if !spec_by_approval(ctx.job.verification_type) {
        Some(TrustNetError::InvalidStatus)
    } else if ctx.job.spec_locked() > ctx.job_vault.lamports {
        Some(TrustNetError::InsufficientFunds)
    } else {
        None
    }
}

/// What an approval returns and leaves: the job completed at the time `now`,
/// the vault less what the job locked, and the transfers of the release.
pub open spec fn spec_approve_outcome(
    before: ApproveCompletion,
    after: ApproveCompletion,
    released: Result<Vec<Transfer>, TrustNetError>,
    now: i64,
) -> bool {
    match released {
        Ok(ts) => {
            &&& spec_approve_error(before) is None
            &&& ts@ == spec_release_transfers(before.job, before.job_vault.key, before.treasury)
            &&& after == (ApproveCompletion {
                job: JobEscrow {
                    status: JobStatus::Completed,
                    completed_at: Some(now),
                    ..before.job
                },
                job_vault: spec_drained(before.job, before.job_vault),
                ..before
            })
        },
        Err(e) => spec_approve_error(before) == Some(e) && after == before,
    }
}

/// Completes a submitted job on the client's approval, where the job's policy
/// is one of approval: the locked value goes to the provider, less the fee,
/// which goes to the treasury.
pub fn handler(ctx: &mut ApproveCompletion, clock: &Clock) -> (released: Result<
    Vec<Transfer>,
    TrustNetError,
>)
    ensures
        spec_approve_outcome(*old(ctx), *final(ctx), released, clock.unix_timestamp),
        released is Ok && spec_vault_balanced(old(ctx).job, old(ctx).job_vault)
            ==> spec_vault_balanced(final(ctx).job, final(ctx).job_vault),
{
    if ctx.job.client != ctx.approver {
        return Err(TrustNetError::Unauthorized);
    }
    if ctx.job.status != JobStatus::Submitted {
        return Err(TrustNetError::InvalidStatus);
    }
    match ctx.job.verification_type {
        VerifyType::ClientApproval | VerifyType::PeerReview | VerifyType::ZkVerify => {},
        _ => {
            return Err(TrustNetError::InvalidStatus);
        },
    }
    let mut vault = ctx.job_vault;
    let transfers = match release_to_provider(&mut vault, &ctx.job, &ctx.treasury) {
        Ok(ts) => ts,
        Err(e) => {
            return Err(e);
        },
    };
    ctx.job_vault = vault;
    ctx.job.status = JobStatus::Completed;
    ctx.job.completed_at = Some(now_ts(clock));
    Ok(transfers)
}

} // verus!
