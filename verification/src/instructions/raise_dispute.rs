use vstd::prelude::*;
use crate::instructions::settlement::{dispute_fee, spec_dispute_fee, spec_vault_balanced};
use crate::ledger::{Clock, Pubkey, Transfer, Vault};
use crate::state::dispute::{Dispute, DisputeStatus};
use crate::state::job_escrow::{JobEscrow, JobStatus};
use crate::utils::constants::{now_ts, COMMIT_WINDOW_SECONDS, REVEAL_WINDOW_SECONDS};
use crate::utils::errors::TrustNetError;
use crate::utils::hashing::{hash_bytes, sha256};

verus! {

/// What the raising of a dispute works on: the job with its address and its
/// vault, the address and bump of the dispute's record, the record, which is
/// none before the dispute is raised, and the vault of the dispute's fee pool.
#[derive(Clone, Debug, PartialEq, Eq)]
pub struct RaiseDispute {
    pub job_key: Pubkey,
    pub job: JobEscrow,
    pub job_vault: Vault,
    pub dispute_key: Pubkey,
    pub dispute_bump: u8,
    pub dispute: Option<Dispute>,
    pub dispute_vault: Vault,
}

/// Why a dispute cannot be raised, if it cannot: the first of these that
/// holds. A job is disputed once: a context that holds the dispute already is
/// refused.
pub open spec fn spec_raise_error(ctx: RaiseDispute) -> Option<TrustNetError> {
    if ctx.job.status != JobStatus::Submitted {
        Some(TrustNetError::InvalidStatus)
    } else if ctx.dispute is Some {
        Some(TrustNetError::InvalidDisputeState)
    } else if ctx.job_vault.lamports < spec_dispute_fee(ctx.job.amount as int) {
        Some(TrustNetError::InsufficientFunds)
    } else if ctx.dispute_vault.lamports + spec_dispute_fee(ctx.job.amount as int) > u64::MAX {
        Some(TrustNetError::InsufficientFunds)
    } else {
        None
    }
}

/// `dispute` is the record of a dispute as it is raised at the time `now`
/// over the job of `ctx`: in its commit phase, with no arbiter selected, no
/// weight on either side and no outcome, the commit deadline one window from
/// now and the reveal deadline one window later.
pub open spec fn spec_is_new_dispute(
    dispute: Dispute,
    ctx: RaiseDispute,
    reason_hash: [u8; 32],
    evidence_hash: [u8; 32],
    now: i64,
) -> bool {
    &&& dispute.job == ctx.job_key
    &&& dispute.client == ctx.job.client
    &&& dispute.provider == ctx.job.provider
    &&& dispute.reason_hash == reason_hash
    &&& dispute.evidence_hash == evidence_hash
    &&& dispute.status == DisputeStatus::CommitPhase
    &&& dispute.commit_deadline == now + 3600
    &&& dispute.reveal_deadline == now + 3600 + 3600
    &&& dispute.selected_arbiters@ == Seq::<Pubkey>::empty()
    &&& dispute.client_weight == 0
    &&& dispute.provider_weight == 0
    &&& dispute.resolved_in_favor_of_client is None
    &&& dispute.bump == ctx.dispute_bump
}

/// The transfers that raising a dispute makes: the dispute's fee from the
/// job's vault into the pool, where there is a fee.
pub open spec fn spec_raise_transfers(ctx: RaiseDispute) -> Seq<Transfer> {
    let fee = spec_dispute_fee(ctx.job.amount as int) as u64;
    if fee > 0 {
        seq![Transfer { from: ctx.job_vault.key, to: ctx.dispute_vault.key, lamports: fee }]
    } else {
        Seq::<Transfer>::empty()
    }
}

/// `after` is the state that raising a dispute leaves from `before`: the job
/// disputed, the dispute recorded, the fee moved from the job's vault into the
/// pool.
pub open spec fn spec_raised(
    before: RaiseDispute,
    after: RaiseDispute,
    reason_hash: [u8; 32],
    evidence_hash: [u8; 32],
    now: i64,
) -> bool {
    let fee = spec_dispute_fee(before.job.amount as int);
    &&& after.job_key == before.job_key
    &&& after.dispute_key == before.dispute_key
    &&& after.dispute_bump == before.dispute_bump
    &&& after.job == (JobEscrow { status: JobStatus::Disputed, ..before.job })
    &&& after.job_vault == (Vault {
        key: before.job_vault.key,
        lamports: (before.job_vault.lamports - fee) as u64,
    })
    &&& after.dispute_vault == (Vault {
        key: before.dispute_vault.key,
        lamports: (before.dispute_vault.lamports + fee) as u64,
    })
    &&& after.dispute matches Some(d) && spec_is_new_dispute(
        d,
        before,
        reason_hash,
        evidence_hash,
        now,
    )
}

/// What raising a dispute returns and leaves, given the digest of the reason.
pub open spec fn spec_raise_outcome(
    before: RaiseDispute,
    after: RaiseDispute,
    moved: Result<Vec<Transfer>, TrustNetError>,
    reason_hash: [u8; 32],
    evidence_hash: [u8; 32],
    now: i64,
) -> bool {
    match moved {
        Ok(ts) => {
            &&& spec_raise_error(before) is None
            &&& ts@ == spec_raise_transfers(before)
            &&& spec_raised(before, after, reason_hash, evidence_hash, now)
        },
        Err(e) => spec_raise_error(before) == Some(e) && after == before,
    }
}

/// Raises a dispute over a submitted job at the time `now`, with the digest
/// `reason_hash` of its reason. The job becomes disputed and the dispute
/// starts in its commit phase.
pub fn open_dispute(
    ctx: &mut RaiseDispute,
    reason_hash: [u8; 32],
    evidence_hash: [u8; 32],
    now: i64,
) -> (moved: Result<Vec<Transfer>, TrustNetError>)
    requires
        now + 3600 + 3600 <= i64::MAX,
    ensures
        spec_raise_outcome(*old(ctx), *final(ctx), moved, reason_hash, evidence_hash, now),
        moved is Ok && spec_vault_balanced(old(ctx).job, old(ctx).job_vault)
            ==> spec_vault_balanced(final(ctx).job, final(ctx).job_vault),
{
    if ctx.job.status != JobStatus::Submitted {
        return Err(TrustNetError::InvalidStatus);
    }
    if ctx.dispute.is_some() {
        return Err(TrustNetError::InvalidDisputeState);
    }
    let fee: u64 = dispute_fee(ctx.job.amount);
    if ctx.job_vault.lamports < fee {
        return Err(TrustNetError::InsufficientFunds);
    }
    let pooled: u64 = match ctx.dispute_vault.lamports.checked_add(fee) {
        Some(sum) => sum,
        None => {
            return Err(TrustNetError::InsufficientFunds);
        },
    };
    let commit_deadline: i64 = now + COMMIT_WINDOW_SECONDS;
    let reveal_deadline: i64 = commit_deadline + REVEAL_WINDOW_SECONDS;
    let dispute = Dispute {
        job: ctx.job_key,
        client: ctx.job.client,
        provider: ctx.job.provider,
        reason_hash,
        evidence_hash,
        status: DisputeStatus::CommitPhase,
        commit_deadline,
        reveal_deadline,
        selected_arbiters: Vec::new(),
        client_weight: 0,
        provider_weight: 0,
        resolved_in_favor_of_client: None,
        bump: ctx.dispute_bump,
    };
    let mut transfers: Vec<Transfer> = Vec::new();
    if fee > 0 {
        transfers.push(
            Transfer { from: ctx.job_vault.key, to: ctx.dispute_vault.key, lamports: fee },
        );
    }
    assert(transfers@ =~= spec_raise_transfers(*old(ctx)));
    ctx.dispute = Some(dispute);
    ctx.job_vault.lamports = ctx.job_vault.lamports - fee;
    ctx.dispute_vault.lamports = pooled;
    ctx.job.status = JobStatus::Disputed;
    Ok(transfers)
}

/// Raises a dispute over a submitted job at the time of `clock`: hashes the
/// reason, then opens the dispute with the digest.
pub fn handler(
    ctx: &mut RaiseDispute,
    reason_bytes: Vec<u8>,
    evidence_hash: [u8; 32],
    clock: &Clock,
) -> (moved: Result<Vec<Transfer>, TrustNetError>)
    requires
        clock.unix_timestamp + 3600 + 3600 <= i64::MAX,
    ensures
        exists|reason_hash: [u8; 32]|
            {
                &&& reason_hash@ == sha256(reason_bytes@)
                &&& #[trigger] spec_raise_outcome(
                    *old(ctx),
                    *final(ctx),
                    moved,
                    reason_hash,
                    evidence_hash,
                    clock.unix_timestamp,
                )
            },
        moved is Ok && spec_vault_balanced(old(ctx).job, old(ctx).job_vault)
            ==> spec_vault_balanced(final(ctx).job, final(ctx).job_vault),
{
    let reason_hash = hash_bytes(reason_bytes.as_slice());
    open_dispute(ctx, reason_hash, evidence_hash, now_ts(clock))
}

} // verus!
