use vstd::prelude::*;
use crate::instructions::accept_job::{spec_accept_outcome, AcceptJob};
use crate::instructions::approve_completion::{spec_approve_outcome, ApproveCompletion};
use crate::instructions::commit_vote::{spec_commit_outcome, CommitVote};
use crate::instructions::create_job::{spec_create_outcome, spec_new_job, CreateJob};
use crate::instructions::expire_job::{spec_expire, spec_expire_outcome, ExpireJob};
use crate::instructions::init_reputation::{spec_init_reputation_outcome, InitReputation};
use crate::instructions::oracle_verify::{spec_oracle_outcome, OracleVerify};
use crate::instructions::raise_dispute::{spec_raise_outcome, RaiseDispute};
use crate::instructions::rate_job::{spec_rate_outcome, RateJob};
use crate::instructions::register_arbiter::{spec_register_outcome, RegisterArbiter};
use crate::instructions::resolve_dispute::{
    spec_addresses_derived,
    spec_resolve_outcome,
    ResolveDispute,
    VaultAddresses,
};
use crate::instructions::reveal_vote::{spec_reveal_outcome, RevealVote};
use crate::instructions::stake_reputation::{spec_stake_outcome, StakeReputation};
use crate::instructions::submit_completion::{spec_submit_outcome, SubmitCompletion};
use crate::ledger::{
    is_program_address,
    spec_owned_seeds,
    Clock,
    ProgramAddress,
    Pubkey,
    Transfer,
    JOB_VAULT_SEED,
};
use crate::state::job_escrow::VerifyType;
use crate::utils::errors::TrustNetError;
use crate::utils::hashing::{sha256, spec_hash_vote};

verus! {

/// A job was created.
#[derive(Clone, Copy, Debug, PartialEq, Eq)]
pub struct JobCreated {
    pub job: Pubkey,
}

/// A job was accepted by its provider.
#[derive(Clone, Copy, Debug, PartialEq, Eq)]
pub struct JobAccepted {
    pub job: Pubkey,
}

/// The provider submitted a job as completed.
#[derive(Clone, Copy, Debug, PartialEq, Eq)]
pub struct JobSubmitted {
    pub job: Pubkey,
}

/// A job was completed and paid out.
#[derive(Clone, Copy, Debug, PartialEq, Eq)]
pub struct JobCompleted {
    pub job: Pubkey,
}

/// A dispute was raised over a job.
#[derive(Clone, Copy, Debug, PartialEq, Eq)]
pub struct JobDisputed {
    pub job: Pubkey,
    pub dispute: Pubkey,
}

/// An arbiter committed to a vote in a dispute.
#[derive(Clone, Copy, Debug, PartialEq, Eq)]
pub struct DisputeCommitted {
    pub dispute: Pubkey,
    pub arbiter: Pubkey,
}

/// An arbiter revealed its vote in a dispute.
#[derive(Clone, Copy, Debug, PartialEq, Eq)]
pub struct DisputeRevealed {
    pub dispute: Pubkey,
    pub arbiter: Pubkey,
}

/// A dispute was resolved.
#[derive(Clone, Copy, Debug, PartialEq, Eq)]
pub struct DisputeResolved {
    pub dispute: Pubkey,
}

/// The expiry of a job was carried out.
#[derive(Clone, Copy, Debug, PartialEq, Eq)]
pub struct JobExpired {
    pub job: Pubkey,
}

/// The record of an agent changed.
#[derive(Clone, Copy, Debug, PartialEq, Eq)]
pub struct ReputationUpdated {
    pub agent: Pubkey,
}

/// An arbiter registered.
#[derive(Clone, Copy, Debug, PartialEq, Eq)]
pub struct ArbiterRegistered {
    pub arbiter: Pubkey,
}

/// The transfers that an entry point gives, or its error: what the
/// instruction itself returns.
pub open spec fn spec_transfers<T>(done: Result<(T, Vec<Transfer>), TrustNetError>) -> Result<
    Vec<Transfer>,
    TrustNetError,
> {
    match done {
        Ok((_, ts)) => Ok(ts),
        Err(e) => Err(e),
    }
}

/// Success or the error of an entry point that makes no transfer: what the
/// instruction itself returns.
pub open spec fn spec_unit<T>(done: Result<T, TrustNetError>) -> Result<(), TrustNetError> {
    match done {
        Ok(_) => Ok(()),
        Err(e) => Err(e),
    }
}

/// Creates a job; on success gives the event to announce and the transfers to
/// make.
pub fn create_job(
    ctx: &mut CreateJob,
    job_id: [u8; 32],
    amount: u64,
    deadline: i64,
    verification_type: VerifyType,
    verification_data: [u8; 64],
    terms_hash: [u8; 32],
    clock: &Clock,
) -> (done: Result<(JobCreated, Vec<Transfer>), TrustNetError>)
    ensures
        spec_create_outcome(
            *old(ctx),
            *final(ctx),
            spec_transfers(done),
            spec_new_job(
                *old(ctx),
                job_id,
                amount,
                deadline,
                verification_type,
                verification_data,
                terms_hash,
                clock.unix_timestamp,
            ),
        ),
        done matches Ok((event, _)) ==> event == (JobCreated { job: old(ctx).job_key }),
{
    let job = ctx.job_key;
    match crate::instructions::create_job::handler(
        ctx,
        job_id,
        amount,
        deadline,
        verification_type,
        verification_data,
        terms_hash,
        clock,
    ) {
        Ok(ts) => Ok((JobCreated { job }, ts)),
        Err(e) => Err(e),
    }
}

/// Accepts a job; on success gives the event to announce and the transfers to
/// make.
pub fn accept_job(ctx: &mut AcceptJob, stake_amount: u64) -> (done: Result<
    (JobAccepted, Vec<Transfer>),
    TrustNetError,
>)
    ensures
        spec_accept_outcome(
            *old(ctx),
            *final(ctx),
            spec_transfers(done),
            stake_amount,
        ),
        done matches Ok((event, _)) ==> event == (JobAccepted { job: old(ctx).job_key }),
{
    let job = ctx.job_key;
    match crate::instructions::accept_job::handler(ctx, stake_amount) {
        Ok(ts) => Ok((JobAccepted { job }, ts)),
        Err(e) => Err(e),
    }
}

/// Submits a job as completed; on success gives the event to announce.
pub fn submit_completion(ctx: &mut SubmitCompletion, submission_hash: [u8; 32], clock: &Clock) -> (
done: Result<JobSubmitted, TrustNetError>)
    ensures
        spec_submit_outcome(
            *old(ctx),
            *final(ctx),
            spec_unit(done),
            clock.unix_timestamp,
        ),
        done matches Ok(event) ==> event == (JobSubmitted { job: old(ctx).job_key }),
{
    let job = ctx.job_key;
    match crate::instructions::submit_completion::handler(ctx, submission_hash, clock) {
        Ok(_) => Ok(JobSubmitted { job }),
        Err(e) => Err(e),
    }
}

/// Approves a submitted job; on success gives the event to announce and the
/// transfers to make.
pub fn approve_completion(ctx: &mut ApproveCompletion, clock: &Clock) -> (done: Result<
    (JobCompleted, Vec<Transfer>),
    TrustNetError,
>)
    ensures
        spec_approve_outcome(
            *old(ctx),
            *final(ctx),
            spec_transfers(done),
            clock.unix_timestamp,
        ),
        done matches Ok((event, _)) ==> event == (JobCompleted { job: old(ctx).job_key }),
{
    let job = ctx.job_key;
    match crate::instructions::approve_completion::handler(ctx, clock) {
        Ok(ts) => Ok((JobCompleted { job }, ts)),
        Err(e) => Err(e),
    }
}

/// Takes an oracle's verdict; on success gives the transfers to make and,
/// where the verdict approved, the event to announce.
pub fn oracle_verify(
    ctx: &mut OracleVerify,
    approved: bool,
    notes_hash: [u8; 32],
    clock: &Clock,
) -> (done: Result<(Option<JobCompleted>, Vec<Transfer>), TrustNetError>)
    ensures
        spec_oracle_outcome(
            *old(ctx),
            *final(ctx),
            spec_transfers(done),
            approved,
            clock.unix_timestamp,
        ),
        done matches Ok((event, _)) ==> event == (if approved {
            Some(JobCompleted { job: old(ctx).job_key })
        } else {
            None
        }),
{
    let job = ctx.job_key;
    match crate::instructions::oracle_verify::handler(ctx, approved, notes_hash, clock) {
        Ok(ts) => {
            let event = if approved {
                Some(JobCompleted { job })
            } else {
                None
            };
            Ok((event, ts))
        },
        Err(e) => Err(e),
    }
}

/// Raises a dispute; on success gives the event to announce and the transfers
/// to make.
pub fn raise_dispute(
    ctx: &mut RaiseDispute,
    reason_bytes: Vec<u8>,
    evidence_hash: [u8; 32],
    clock: &Clock,
) -> (done: Result<(JobDisputed, Vec<Transfer>), TrustNetError>)
    requires
        clock.unix_timestamp + 3600 + 3600 <= i64::MAX,
    ensures
        exists|reason_hash: [u8; 32]|
            {
                &&& reason_hash@ == sha256(reason_bytes@)
                &&& #[trigger] spec_raise_outcome(
                    *old(ctx),
                    *final(ctx),
                    spec_transfers(done),
                    reason_hash,
                    evidence_hash,
                    clock.unix_timestamp,
                )
            },
        done matches Ok((event, _)) ==> event == (JobDisputed {
            job: old(ctx).job_key,
            dispute: old(ctx).dispute_key,
        }),
{
    let job = ctx.job_key;
    let dispute = ctx.dispute_key;
    match crate::instructions::raise_dispute::handler(ctx, reason_bytes, evidence_hash, clock) {
        Ok(ts) => Ok((JobDisputed { job, dispute }, ts)),
        Err(e) => Err(e),
    }
}

/// Commits an arbiter to a vote; on success gives the event to announce.
pub fn commit_vote(ctx: &mut CommitVote, vote_hash: [u8; 32]) -> (done: Result<
    DisputeCommitted,
    TrustNetError,
>)
    ensures
        spec_commit_outcome(
            *old(ctx),
            *final(ctx),
            spec_unit(done),
            vote_hash,
        ),
        done matches Ok(event) ==> event == (DisputeCommitted {
            dispute: old(ctx).dispute_key,
            arbiter: old(ctx).arbiter_key,
        }),
{
    let dispute = ctx.dispute_key;
    let arbiter = ctx.arbiter_key;
    match crate::instructions::commit_vote::handler(ctx, vote_hash) {
        Ok(_) => Ok(DisputeCommitted { dispute, arbiter }),
        Err(e) => Err(e),
    }
}

/// Reveals an arbiter's vote; on success gives the event to announce.
pub fn reveal_vote(ctx: &mut RevealVote, vote_bool: bool, salt: Vec<u8>) -> (done: Result<
    DisputeRevealed,
    TrustNetError,
>)
    ensures
        exists|digest: [u8; 32]|
            {
                &&& digest@ == spec_hash_vote(
                    old(ctx).arbiter_key@,
                    old(ctx).dispute_key@,
                    vote_bool,
                    salt@,
                )
                &&& #[trigger] spec_reveal_outcome(
                    *old(ctx),
                    *final(ctx),
                    spec_unit(done),
                    vote_bool,
                    digest,
                )
            },
        done matches Ok(event) ==> event == (DisputeRevealed {
            dispute: old(ctx).dispute_key,
            arbiter: old(ctx).arbiter_key,
        }),
{
    let dispute = ctx.dispute_key;
    let arbiter = ctx.arbiter_key;
    let ghost salt_bytes = salt@;
    let revealed = crate::instructions::reveal_vote::handler(ctx, vote_bool, salt);
    let done = match revealed {
        Ok(_) => Ok(DisputeRevealed { dispute, arbiter }),
        Err(e) => Err(e),
    };
    proof {
        let digest = choose|digest: [u8; 32]|
            {
                &&& digest@ == spec_hash_vote(
                    old(ctx).arbiter_key@,
                    old(ctx).dispute_key@,
                    vote_bool,
                    salt_bytes,
                )
                &&& #[trigger] spec_reveal_outcome(*old(ctx), *ctx, revealed, vote_bool, digest)
            };
        assert(spec_reveal_outcome(*old(ctx), *ctx, spec_unit(done), vote_bool, digest));
    }
    done
}

/// Resolves a dispute; on success gives the event to announce and the
/// transfers to make.
pub fn resolve_dispute(ctx: &mut ResolveDispute, clock: &Clock) -> (done: Result<
    (DisputeResolved, Vec<Transfer>),
    TrustNetError,
>)
    ensures
        exists|addresses: VaultAddresses|
            {
                &&& spec_addresses_derived(*old(ctx), addresses)
                &&& #[trigger] spec_resolve_outcome(
                    *old(ctx),
                    *final(ctx),
                    spec_transfers(done),
                    addresses,
                    clock.unix_timestamp,
                )
            },
        done matches Ok((event, _)) ==> event == (DisputeResolved { dispute: old(ctx).dispute_key }),
{
    let dispute = ctx.dispute_key;
    match crate::instructions::resolve_dispute::handler(ctx, clock) {
        Ok(ts) => Ok((DisputeResolved { dispute }, ts)),
        Err(e) => Err(e),
    }
}

/// Expires a job; on success gives the event to announce and the transfers to
/// make. The event is the same whether the job expired or was completed by
/// the passing of its deadline.
pub fn expire_job(ctx: &mut ExpireJob, clock: &Clock) -> (done: Result<
    (JobExpired, Vec<Transfer>),
    TrustNetError,
>)
    ensures
        exists|expected: Option<ProgramAddress>|
            {
                &&& is_program_address(
                    expected,
                    spec_owned_seeds(JOB_VAULT_SEED@, old(ctx).job_key@),
                    old(ctx).program_id@,
                )
                &&& #[trigger] spec_expire_outcome(
                    *old(ctx),
                    *final(ctx),
                    spec_transfers(done),
                    spec_expire(*old(ctx), expected, clock.unix_timestamp),
                )
            },
        done matches Ok((event, _)) ==> event == (JobExpired { job: old(ctx).job_key }),
{
    let job = ctx.job_key;
    match crate::instructions::expire_job::handler(ctx, clock) {
        Ok(ts) => Ok((JobExpired { job }, ts)),
        Err(e) => Err(e),
    }
}

/// Opens an agent's reputation record; on success gives the event to announce
/// and the transfers to make.
pub fn init_reputation(
    ctx: &mut InitReputation,
    stake_lamports: u64,
    specializations: Vec<u8>,
    clock: &Clock,
) -> (done: Result<(ReputationUpdated, Vec<Transfer>), TrustNetError>)
    ensures
        spec_init_reputation_outcome(
            *old(ctx),
            *final(ctx),
            spec_transfers(done),
            stake_lamports,
            specializations,
            clock.unix_timestamp,
        ),
        done matches Ok((event, _)) ==> event == (ReputationUpdated { agent: old(ctx).agent }),
{
    let agent = ctx.agent;
    match crate::instructions::init_reputation::handler(ctx, stake_lamports, specializations, clock) {
        Ok(ts) => Ok((ReputationUpdated { agent }, ts)),
        Err(e) => Err(e),
    }
}

/// Adds to an agent's stake; on success gives the event to announce and the
/// transfers to make.
pub fn stake_reputation(ctx: &mut StakeReputation, add_lamports: u64) -> (done: Result<
    (ReputationUpdated, Vec<Transfer>),
    TrustNetError,
>)
    ensures
        spec_stake_outcome(
            *old(ctx),
            *final(ctx),
            spec_transfers(done),
            add_lamports,
        ),
        done matches Ok((event, _)) ==> event == (ReputationUpdated { agent: old(ctx).agent }),
{
    let agent = ctx.agent;
    match crate::instructions::stake_reputation::handler(ctx, add_lamports) {
        Ok(ts) => Ok((ReputationUpdated { agent }, ts)),
        Err(e) => Err(e),
    }
}

/// Rates a job; on success gives the event to announce, which names the agent
/// rated.
pub fn rate_job(
    ctx: &mut RateJob,
    job_id: [u8; 32],
    score: u8,
    tags: Vec<u8>,
    comment_hash: [u8; 32],
    clock: &Clock,
) -> (done: Result<ReputationUpdated, TrustNetError>)
    ensures
        spec_rate_outcome(
            *old(ctx),
            *final(ctx),
            spec_unit(done),
            job_id,
            score,
            tags,
            comment_hash,
            clock.unix_timestamp,
        ),
        done matches Ok(event) ==> event == (ReputationUpdated {
            agent: old(ctx).ratee_reputation.agent,
        }),
{
    let agent = ctx.ratee_reputation.agent;
    match crate::instructions::rate_job::handler(ctx, job_id, score, tags, comment_hash, clock) {
        Ok(_) => Ok(ReputationUpdated { agent }),
        Err(e) => Err(e),
    }
}

/// Registers an arbiter; on success gives the event to announce and the
/// transfers to make.
pub fn register_arbiter(
    ctx: &mut RegisterArbiter,
    stake_amount: u64,
    specializations: Vec<u8>,
    clock: &Clock,
) -> (done: Result<(ArbiterRegistered, Vec<Transfer>), TrustNetError>)
    ensures
        spec_register_outcome(
            *old(ctx),
            *final(ctx),
            spec_transfers(done),
            stake_amount,
            specializations,
            clock.unix_timestamp,
        ),
        done matches Ok((event, _)) ==> event == (ArbiterRegistered {
            arbiter: old(ctx).arbiter_key,
        }),
{
    let arbiter = ctx.arbiter_key;
    match crate::instructions::register_arbiter::handler(ctx, stake_amount, specializations, clock) {
        Ok(ts) => Ok((ArbiterRegistered { arbiter }, ts)),
        Err(e) => Err(e),
    }
}

} // verus!
