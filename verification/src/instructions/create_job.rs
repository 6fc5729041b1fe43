use vstd::prelude::*;
use crate::instructions::settlement::spec_vault_balanced;
use crate::ledger::{Clock, Pubkey, Transfer, Vault};
use crate::state::job_escrow::{JobEscrow, JobStatus, VerifyType};
use crate::utils::constants::now_ts;
use crate::utils::errors::TrustNetError;

verus! {

/// What the creation of a job works on: the client who funds it, the provider
/// it names, the address and bump of the job's record, the job's record, which
/// is none before the job is created, and the job's vault.
#[derive(Clone, Copy, Debug, PartialEq, Eq)]
pub struct CreateJob {
    pub client: Pubkey,
    pub provider: Pubkey,
    pub job_key: Pubkey,
    pub job_bump: u8,
    pub job: Option<JobEscrow>,
    pub job_vault: Vault,
}

/// The record of a job as it is created.
pub open spec fn spec_new_job(
    ctx: CreateJob,
    job_id: [u8; 32],
    amount: u64,
    deadline: i64,
    verification_type: VerifyType,
    verification_data: [u8; 64],
    terms_hash: [u8; 32],
    now: i64,
) -> JobEscrow {
    JobEscrow {
        job_id,
        client: ctx.client,
        provider: ctx.provider,
        amount,
        provider_stake: 0,
        deadline,
        status: JobStatus::Created,
        verification_type,
        verification_data,
        created_at: now,
        submitted_at: None,
        completed_at: None,
        terms_hash,
        bump: ctx.job_bump,
    }
}

/// Why a job cannot be created, if it cannot: the first of these that holds.
/// A job is created once: a context that holds the job already is refused.
pub open spec fn spec_create_error(ctx: CreateJob, amount: u64) -> Option<TrustNetError> {
    if ctx.job is Some {
        Some(TrustNetError::InvalidStatus)
    } else if amount == 0 {
        Some(TrustNetError::InsufficientFunds)
    } else if ctx.job_vault.lamports + amount > u64::MAX {
        Some(TrustNetError::InsufficientFunds)
    } else {
        None
    }
}

/// What the creation of a job returns and leaves: the job recorded as
/// created, the amount added to what its vault held, and the transfer of the
/// amount from the client.
pub open spec fn spec_create_outcome(
    before: CreateJob,
    after: CreateJob,
    locked: Result<Vec<Transfer>, TrustNetError>,
    job: JobEscrow,
) -> bool {
    match locked {
        Ok(ts) => {
            &&& spec_create_error(before, job.amount) is None
            &&& ts@ == seq![
                Transfer { from: before.client, to: before.job_vault.key, lamports: job.amount },
            ]
            &&& after == (CreateJob {
                job: Some(job),
                job_vault: Vault {
                    key: before.job_vault.key,
                    lamports: (before.job_vault.lamports + job.amount) as u64,
                },
                ..before
            })
        },
        Err(e) => spec_create_error(before, job.amount) == Some(e) && after == before,
    }
}

/// Creates a job and locks `amount` from the client in the job's vault. A job
/// that exists already is refused with `InvalidStatus`, an amount of zero
/// with `InsufficientFunds`. Where the vault held nothing, it then holds the
/// amount.
pub fn handler(
    ctx: &mut CreateJob,
    job_id: [u8; 32],
    amount: u64,
    deadline: i64,
    verification_type: VerifyType,
    verification_data: [u8; 64],
    terms_hash: [u8; 32],
    clock: &Clock,
) -> (locked: Result<Vec<Transfer>, TrustNetError>)
    ensures
        spec_create_outcome(
            *old(ctx),
            *final(ctx),
            locked,
            spec_new_job(
                *old(ctx),
                job_id,
                amount,
                deadline,
                verification_type,
                verification_data,
                terms_hash,
                clock.unix_timestamp,
            ),
        ),
        locked is Ok ==> final(ctx).job->0.wf(),
        locked is Ok && old(ctx).job_vault.lamports == 0 ==> spec_vault_balanced(
            final(ctx).job->0,
            final(ctx).job_vault,
        ),
{
    if ctx.job.is_some() {
        return Err(TrustNetError::InvalidStatus);
    }
    if amount == 0 {
        return Err(TrustNetError::InsufficientFunds);
    }
    let mut vault = ctx.job_vault;
    let transfer = match vault.deposit(&ctx.client, amount) {
        Ok(t) => t,
        Err(e) => {
            return Err(e);
        },
    };
    let job = JobEscrow {
        job_id,
        client: ctx.client,
        provider: ctx.provider,
        amount,
        provider_stake: 0,
        deadline,
        status: JobStatus::Created,
        verification_type,
        verification_data,
        created_at: now_ts(clock),
        submitted_at: None,
        completed_at: None,
        terms_hash,
        bump: ctx.job_bump,
    };
    let mut transfers: Vec<Transfer> = Vec::new();
    transfers.push(transfer);
    ctx.job = Some(job);
    ctx.job_vault = vault;
    Ok(transfers)
}

} // verus!
