use vstd::prelude::*;
use crate::instructions::settlement::{
    release_to_provider,
    spec_drained,
    spec_release_transfers,
    spec_vault_balanced,
};
use crate::ledger::{Clock, Pubkey, Transfer, Vault};
use crate::state::job_escrow::{JobEscrow, JobStatus, VerifyType};
use crate::utils::constants::now_ts;
use crate::utils::errors::TrustNetError;

verus! {

/// What an oracle's verdict works on: the oracle who gives it, the job, its
/// vault and the treasury that takes the fee.
#[derive(Clone, Copy, Debug, PartialEq, Eq)]
pub struct OracleVerify {
    pub oracle: Pubkey,
    pub job_key: Pubkey,
    pub job: JobEscrow,
    pub job_vault: Vault,
    pub treasury: Pubkey,
}

/// Why a verdict is refused, if it is: the first of these that holds. A vault
/// that holds too little matters only to a verdict that approves.
pub open spec fn spec_oracle_error(ctx: OracleVerify, approved: bool) -> Option<TrustNetError> {
    if ctx.job.status != JobStatus::Submitted {
        Some(TrustNetError::InvalidStatus)
    } else if ctx.job.verification_type != VerifyType::OracleVerify {
        Some(TrustNetError::InvalidStatus)
    } else if ctx.job.spec_oracle() != ctx.oracle@ {
        Some(TrustNetError::Unauthorized)
    } else if approved && ctx.job.spec_locked() > ctx.job_vault.lamports {
        Some(TrustNetError::InsufficientFunds)
    } else {
        None
    }
}

/// What a verdict returns and leaves. An approval completes the job at the
/// time `now` and releases what it locked; a rejection makes no transfer and
/// leaves everything as it was.
pub open spec fn spec_oracle_outcome(
    before: OracleVerify,
    after: OracleVerify,
    released: Result<Vec<Transfer>, TrustNetError>,
    approved: bool,
    now: i64,
) -> bool {
    match released {
        Ok(ts) => {
            &&& spec_oracle_error(before, approved) is None
            &&& approved ==> {
                &&& ts@ == spec_release_transfers(before.job, before.job_vault.key, before.treasury)
                &&& after == (OracleVerify {
                    job: JobEscrow {
                        status: JobStatus::Completed,
                        completed_at: Some(now),
                        ..before.job
                    },
                    job_vault: spec_drained(before.job, before.job_vault),
                    ..before
                })
            }
            &&& !approved ==> ts@ == Seq::<Transfer>::empty() && after == before
        },
        Err(e) => spec_oracle_error(before, approved) == Some(e) && after == before,
    }
}

/// Takes the verdict of the oracle that the job names in the first 32 bytes of
/// its verification data. An approval completes the job and releases the
/// locked value to the provider, less the fee; a rejection changes nothing.
pub fn handler(
    ctx: &mut OracleVerify,
    approved: bool,
    _notes_hash: [u8; 32],
    clock: &Clock,
) -> (released: Result<Vec<Transfer>, TrustNetError>)
    ensures
        spec_oracle_outcome(*old(ctx), *final(ctx), released, approved, clock.unix_timestamp),
        released is Ok && spec_vault_balanced(old(ctx).job, old(ctx).job_vault)
            ==> spec_vault_balanced(final(ctx).job, final(ctx).job_vault),
{
    if ctx.job.status != JobStatus::Submitted {
        return Err(TrustNetError::InvalidStatus);
    }
    if ctx.job.verification_type != VerifyType::OracleVerify {
        return Err(TrustNetError::InvalidStatus);
    }
    let oracle_key = ctx.job.oracle();
    if oracle_key != ctx.oracle {
        return Err(TrustNetError::Unauthorized);
    }
    if !approved {
        return Ok(Vec::new());
    }
    let mut vault = ctx.job_vault;
    let transfers = match release_to_provider(&mut vault, &ctx.job, &ctx.treasury) {
        Ok(ts) => ts,
        Err(e) => {
            return Err(e);
        },
    };
    ctx.job_vault = vault;
    ctx.job.status = JobStatus::Completed;
    ctx.job.completed_at = Some(now_ts(clock));
    Ok(transfers)
}

} // verus!
