use vstd::prelude::*;
use crate::instructions::settlement::{
    refund_checked,
    release_checked,
    spec_drained,
    spec_refund_transfers,
    spec_release_transfers,
    spec_vault_balanced,
    spec_vault_error,
};
use crate::ledger::{
    find_owned_address,
    is_program_address,
    spec_owned_seeds,
    Clock,
    ProgramAddress,
    Pubkey,
    Transfer,
    Vault,
    JOB_VAULT_SEED,
};
use crate::state::job_escrow::{JobEscrow, JobStatus, VerifyType};
use crate::utils::constants::{now_ts, GRACE_PERIOD_SECONDS};
use crate::utils::errors::TrustNetError;

verus! {

/// What the expiry of a job works on: the job with its address, its vault,
/// the treasury that takes the fee, and the program under which the vault's
/// address is derived.
#[derive(Clone, Copy, Debug, PartialEq, Eq)]
pub struct ExpireJob {
    pub job_key: Pubkey,
    pub job: JobEscrow,
    pub job_vault: Vault,
    pub treasury: Pubkey,
    pub program_id: Pubkey,
}

/// What an expiry does at the time `now`, given the address `expected` that
/// was derived for the job's vault: the state it leaves with the transfers it
/// makes, or the reason why it is refused.
///
/// An active job past its deadline is refunded to the client and becomes
/// expired. A submitted job whose policy is the automatic one, past its
/// deadline and the grace period, is released to the provider and becomes
/// completed. Every other job is refused.
pub open spec fn spec_expire(ctx: ExpireJob, expected: Option<ProgramAddress>, now: i64) -> Result<
    (ExpireJob, Seq<Transfer>),
    TrustNetError,
> {
    match ctx.job.status {
        JobStatus::Active => {
            if now <= ctx.job.deadline {
                Err(TrustNetError::DeadlineNotReached)
            } else if let Some(e) = spec_vault_error(ctx.job, ctx.job_vault, expected) {
                Err(e)
            } else {
                Ok(
                    (
                        ExpireJob {
                            job: JobEscrow { status: JobStatus::Expired, ..ctx.job },
                            job_vault: spec_drained(ctx.job, ctx.job_vault),
                            ..ctx
                        },
                        spec_refund_transfers(ctx.job, ctx.job_vault.key),
                    ),
                )
            }
        },
        JobStatus::Submitted => {
            if ctx.job.verification_type != VerifyType::DeadlineAuto {
                Err(TrustNetError::InvalidStatus)
            } else if now <= ctx.job.deadline + 3600 {
                Err(TrustNetError::DeadlineNotReached)
            } else if let Some(e) = spec_vault_error(ctx.job, ctx.job_vault, expected) {
                Err(e)
            } else {
                Ok(
                    (
                        ExpireJob {
                            job: JobEscrow { status: JobStatus::Completed, ..ctx.job },
                            job_vault: spec_drained(ctx.job, ctx.job_vault),
                            ..ctx
                        },
                        spec_release_transfers(ctx.job, ctx.job_vault.key, ctx.treasury),
                    ),
                )
            }
        },
        _ => Err(TrustNetError::InvalidStatus),
    }
}

/// `released` and `after` are what `outcome` calls for from the state
/// `before`: the transfers and the new state, or the error with the state
/// unchanged.
pub open spec fn spec_expire_outcome(
    before: ExpireJob,
    after: ExpireJob,
    released: Result<Vec<Transfer>, TrustNetError>,
    outcome: Result<(ExpireJob, Seq<Transfer>), TrustNetError>,
) -> bool {
    match released {
        Ok(ts) => outcome == Ok::<(ExpireJob, Seq<Transfer>), TrustNetError>((after, ts@)),
        Err(e) => outcome == Err::<(ExpireJob, Seq<Transfer>), TrustNetError>(e) && after == before,
    }
}

/// Expires a job at the time `now`, given the address `expected` that was
/// derived for its vault. A vault at another address is refused with
/// `Unauthorized`.
pub fn settle(ctx: &mut ExpireJob, expected: &Option<ProgramAddress>, now: i64) -> (released:
    Result<Vec<Transfer>, TrustNetError>)
    ensures
        spec_expire_outcome(*old(ctx), *final(ctx), released, spec_expire(*old(ctx), *expected, now)),
        released is Ok && spec_vault_balanced(old(ctx).job, old(ctx).job_vault)
            ==> spec_vault_balanced(final(ctx).job, final(ctx).job_vault),
{
    match ctx.job.status {
        JobStatus::Active => {
            if now <= ctx.job.deadline {
                return Err(TrustNetError::DeadlineNotReached);
            }
            let mut vault = ctx.job_vault;
            let transfers = match refund_checked(&mut vault, &ctx.job, expected) {
                Ok(ts) => ts,
                Err(e) => {
                    return Err(e);
                },
            };
            ctx.job_vault = vault;
            ctx.job.status = JobStatus::Expired;
            Ok(transfers)
        },
        JobStatus::Submitted => {
            if ctx.job.verification_type != VerifyType::DeadlineAuto {
                return Err(TrustNetError::InvalidStatus);
            }
            if now as i128 <= ctx.job.deadline as i128 + GRACE_PERIOD_SECONDS as i128 {
                return Err(TrustNetError::DeadlineNotReached);
            }
            let mut vault = ctx.job_vault;
            let transfers = match release_checked(&mut vault, &ctx.job, &ctx.treasury, expected) {
                Ok(ts) => ts,
                Err(e) => {
                    return Err(e);
                },
            };
            ctx.job_vault = vault;
            ctx.job.status = JobStatus::Completed;
            Ok(transfers)
        },
        _ => Err(TrustNetError::InvalidStatus),
    }
}

/// Expires a job at the time of `clock`: derives the address of the job's
/// vault from the job's address, then settles against it.
pub fn handler(ctx: &mut ExpireJob, clock: &Clock) -> (released: Result<
    Vec<Transfer>,
    TrustNetError,
>)
    ensures
        exists|expected: Option<ProgramAddress>|
            {
                &&& is_program_address(
                    expected,
                    spec_owned_seeds(JOB_VAULT_SEED@, old(ctx).job_key@),
                    old(ctx).program_id@,
                )
                &&& #[trigger] spec_expire_outcome(
                    *old(ctx),
                    *final(ctx),
                    released,
                    spec_expire(*old(ctx), expected, clock.unix_timestamp),
                )
            },
        released is Ok && spec_vault_balanced(old(ctx).job, old(ctx).job_vault)
            ==> spec_vault_balanced(final(ctx).job, final(ctx).job_vault),
{
    let expected = find_owned_address(JOB_VAULT_SEED.as_slice(), &ctx.job_key, &ctx.program_id);
    settle(ctx, &expected, now_ts(clock))
}

} // verus!
