use vstd::prelude::*;
use crate::instructions::settlement::spec_vault_balanced;
use crate::ledger::{Pubkey, Transfer, Vault};
use crate::state::job_escrow::{JobEscrow, JobStatus};
use crate::utils::errors::TrustNetError;

verus! {

/// What the acceptance of a job works on: the provider who accepts, the job
/// and its vault.
#[derive(Clone, Copy, Debug, PartialEq, Eq)]
pub struct AcceptJob {
    pub provider: Pubkey,
    pub job_key: Pubkey,
    pub job: JobEscrow,
    pub job_vault: Vault,
}

/// Why an acceptance is refused, if it is: the first of these that holds.
pub open spec fn spec_accept_error(ctx: AcceptJob, stake_amount: u64) -> Option<TrustNetError> {
    if ctx.job.provider@ != ctx.provider@ {
        Some(TrustNetError::Unauthorized)
    } else if ctx.job.status != JobStatus::Created {
        Some(TrustNetError::InvalidStatus)
    } else if stake_amount == 0 {
        Some(TrustNetError::InsufficientFunds)
    } else if ctx.job_vault.lamports + stake_amount > u64::MAX {
        Some(TrustNetError::InsufficientFunds)
    } else {
        None
    }
}

/// What an acceptance returns and leaves: the job active with the stake
/// recorded, the stake added to the vault, and the transfer of the stake from
/// the provider.
pub open spec fn spec_accept_outcome(
    before: AcceptJob,
    after: AcceptJob,
    locked: Result<Vec<Transfer>, TrustNetError>,
    stake_amount: u64,
) -> bool {
    match locked {
        Ok(ts) => {
            &&& spec_accept_error(before, stake_amount) is None
            &&& ts@ == seq![
                Transfer { from: before.provider, to: before.job_vault.key, lamports: stake_amount },
            ]
            &&& after == (AcceptJob {
                job: JobEscrow {
                    status: JobStatus::Active,
                    provider_stake: stake_amount,
                    ..before.job
                },
                job_vault: Vault {
                    key: before.job_vault.key,
                    lamports: (before.job_vault.lamports + stake_amount) as u64,
                },
                ..before
            })
        },
        Err(e) => spec_accept_error(before, stake_amount) == Some(e) && after == before,
    }
}

/// Accepts a created job for the provider it names and locks the provider's
/// stake in the job's vault. The job becomes active.
pub fn handler(ctx: &mut AcceptJob, stake_amount: u64) -> (locked: Result<
    Vec<Transfer>,
    TrustNetError,
>)
    ensures
        spec_accept_outcome(*old(ctx), *final(ctx), locked, stake_amount),
        locked is Ok && spec_vault_balanced(old(ctx).job, old(ctx).job_vault)
            ==> spec_vault_balanced(final(ctx).job, final(ctx).job_vault),
{
    if ctx.job.provider != ctx.provider {
        return Err(TrustNetError::Unauthorized);
    }
    if ctx.job.status != JobStatus::Created {
        return Err(TrustNetError::InvalidStatus);
    }
    if stake_amount == 0 {
        return Err(TrustNetError::InsufficientFunds);
    }
    let mut vault = ctx.job_vault;
    let transfer = match vault.deposit(&ctx.provider, stake_amount) {
        Ok(t) => t,
        Err(e) => {
            return Err(e);
        },
    };
    let mut transfers: Vec<Transfer> = Vec::new();
    transfers.push(transfer);
    ctx.job.status = JobStatus::Active;
    ctx.job.provider_stake = stake_amount;
    ctx.job_vault = vault;
    Ok(transfers)
}

} // verus!
