use vstd::prelude::*;
use crate::instructions::accept_job::{spec_accept_outcome, AcceptJob};
use crate::instructions::approve_completion::{spec_approve_outcome, ApproveCompletion};
use crate::instructions::commit_vote::{spec_commit_outcome, CommitVote};
use crate::instructions::create_job::{spec_create_outcome, CreateJob};
use crate::instructions::expire_job::{spec_expire, spec_expire_outcome, ExpireJob};
use crate::instructions::init_reputation::{spec_init_reputation_outcome, InitReputation};
use crate::instructions::oracle_verify::{spec_oracle_outcome, OracleVerify};
use crate::instructions::raise_dispute::{spec_raise_outcome, RaiseDispute};
use crate::instructions::rate_job::{spec_rate_outcome, RateJob};
use crate::instructions::register_arbiter::{spec_register_outcome, RegisterArbiter};
use crate::instructions::resolve_dispute::{
    lemma_rewards_bounded,
    lemma_share_bound,
    lemma_winning_weight_monotonic,
    spec_pool_paid,
    spec_pool_weight,
    spec_provider_wins,
    spec_resolution,
    spec_resolve_error,
    spec_resolve_outcome,
    spec_reward,
    spec_reward_transfers,
    spec_rewards_paid,
    spec_winning_weight,
    PanelMember,
    ResolveDispute,
    VaultAddresses,
};
use crate::instructions::reveal_vote::{spec_reveal_outcome, RevealVote};
use crate::instructions::submit_completion::{spec_submit_outcome, SubmitCompletion};
use crate::instructions::settlement::{
    lemma_bps_of_bound,
    lemma_refund_conserves,
    lemma_release_conserves,
    spec_dispute_fee,
    spec_moved,
    spec_protocol_fee,
    spec_provider_payout,
    spec_refund_transfers,
    spec_release_transfers,
    spec_vault_balanced,
    spec_vault_error,
};
use crate::ledger::{spec_address_matches, ProgramAddress, Pubkey, Transfer, Vault};
use crate::state::dispute::Dispute;
use crate::state::job_escrow::{JobEscrow, JobStatus};
use crate::utils::errors::TrustNetError;

verus! {

/// The vault of a job that is active or submitted holds the amount and the
/// stake; the vault of a job in a terminal state holds nothing.
pub proof fn law_vault_balance(job: JobEscrow, vault: Vault)
    requires
        spec_vault_balanced(job, vault),
    ensures
        job.status == JobStatus::Active || job.status == JobStatus::Submitted ==> vault.lamports
            == job.amount + job.provider_stake,
        job.status.spec_is_terminal() ==> vault.lamports == 0,
{
}

/// An acceptance takes a created job to active; where the vault held the
/// amount, it then holds the amount and the stake.
pub proof fn law_accept(
    before: AcceptJob,
    after: AcceptJob,
    locked: Result<Vec<Transfer>, TrustNetError>,
    stake_amount: u64,
)
    requires
        spec_accept_outcome(before, after, locked, stake_amount),
        locked is Ok,
    ensures
        after.job.amount == before.job.amount,
        before.job.status.spec_can_become(after.job.status),
        after.job.status == JobStatus::Active,
        spec_vault_balanced(before.job, before.job_vault) ==> after.job_vault.lamports
            == after.job.amount + after.job.provider_stake,
{
}

/// A submission takes an active job to submitted and moves nothing.
pub proof fn law_submit(
    before: SubmitCompletion,
    after: SubmitCompletion,
    done: Result<(), TrustNetError>,
    now: i64,
)
    requires
        spec_submit_outcome(before, after, done, now),
        done is Ok,
    ensures
        before.job.status.spec_can_become(after.job.status),
        after.job.status == JobStatus::Submitted,
        after.job.amount == before.job.amount,
        after.job.provider_stake == before.job.provider_stake,
{
}

/// An approval takes a submitted job to completed and empties a vault that
/// held the amount and the stake.
pub proof fn law_approve(
    before: ApproveCompletion,
    after: ApproveCompletion,
    released: Result<Vec<Transfer>, TrustNetError>,
    now: i64,
)
    requires
        spec_approve_outcome(before, after, released, now),
        released is Ok,
    ensures
        after.job.amount == before.job.amount,
        before.job.status.spec_can_become(after.job.status),
        after.job.status == JobStatus::Completed,
        spec_vault_balanced(before.job, before.job_vault) ==> after.job_vault.lamports == 0,
{
}

/// An oracle's approval takes a submitted job to completed and empties a
/// vault that held the amount and the stake; its rejection leaves the job
/// submitted and the vault as it was.
pub proof fn law_oracle(
    before: OracleVerify,
    after: OracleVerify,
    released: Result<Vec<Transfer>, TrustNetError>,
    approved: bool,
    now: i64,
)
    requires
        spec_oracle_outcome(before, after, released, approved, now),
        released is Ok,
    ensures
        after.job.amount == before.job.amount,
        approved ==> before.job.status.spec_can_become(after.job.status) && after.job.status
            == JobStatus::Completed,
        approved && spec_vault_balanced(before.job, before.job_vault) ==> after.job_vault.lamports
            == 0,
        !approved ==> after.job.status == JobStatus::Submitted && after.job_vault
            == before.job_vault,
{
}

/// An expiry takes an active job to expired and a submitted job to completed,
/// and either way empties a vault that held the amount and the stake.
pub proof fn law_expire(
    before: ExpireJob,
    after: ExpireJob,
    released: Result<Vec<Transfer>, TrustNetError>,
    expected: Option<ProgramAddress>,
    now: i64,
)
    requires
        spec_expire_outcome(before, after, released, spec_expire(before, expected, now)),
        released is Ok,
    ensures
        after.job.amount == before.job.amount,
        before.job.status.spec_can_become(after.job.status),
        after.job.status.spec_is_terminal(),
        spec_vault_balanced(before.job, before.job_vault) ==> after.job_vault.lamports == 0,
{
}

/// Raising a dispute takes a submitted job to disputed and records a dispute
/// that is open to votes, with no outcome yet.
pub proof fn law_raise(
    before: RaiseDispute,
    after: RaiseDispute,
    moved: Result<Vec<Transfer>, TrustNetError>,
    reason_hash: [u8; 32],
    evidence_hash: [u8; 32],
    now: i64,
)
    requires
        spec_raise_outcome(before, after, moved, reason_hash, evidence_hash, now),
        moved is Ok,
    ensures
        after.job.amount == before.job.amount,
        before.job.status.spec_can_become(after.job.status),
        after.job.status == JobStatus::Disputed,
        after.dispute is Some,
        after.dispute->0.wf(),
        after.dispute->0.spec_is_voting(),
        spec_vault_balanced(before.job, before.job_vault) ==> spec_vault_balanced(
            after.job,
            after.job_vault,
        ),
{
    lemma_bps_of_bound(before.job.amount as int, 100);
}

/// A resolution takes a disputed job to resolved and pays what the job
/// locks, the amount and the stake. It succeeds from a vault that holds what
/// the job's state calls for only where no dispute fee was taken from it; the
/// vault is then left empty.
pub proof fn law_resolve(
    before: ResolveDispute,
    after: ResolveDispute,
    moved: Result<Vec<Transfer>, TrustNetError>,
    addresses: VaultAddresses,
    now: i64,
)
    requires
        spec_resolve_outcome(before, after, moved, addresses, now),
        moved is Ok,
    ensures
        after.job.amount == before.job.amount,
        before.job.status.spec_can_become(after.job.status),
        after.job.status == JobStatus::Resolved,
        after.job_vault.lamports == before.job_vault.lamports - (before.job.amount
            + before.job.provider_stake),
        spec_vault_balanced(before.job, before.job_vault) ==> spec_dispute_fee(
            before.job.amount as int,
        ) == 0 && after.job_vault.lamports == 0,
{
    lemma_bps_of_bound(before.job.amount as int, 100);
}

/// A disputed job from whose vault a dispute fee was taken cannot be
/// resolved: its vault holds the amount and the stake less the fee, while a
/// resolution pays the amount and the stake. Every resolution of it is
/// refused, and one that gets as far as the job's vault, with the vault at its
/// derived address, is refused with `InsufficientFunds`. Every disputed job
/// of an amount of 100 or more is such a job.
pub proof fn law_funded_dispute_is_refused(
    ctx: ResolveDispute,
    addresses: VaultAddresses,
    now: i64,
)
    requires
        ctx.job.status == JobStatus::Disputed,
        spec_vault_balanced(ctx.job, ctx.job_vault),
        spec_dispute_fee(ctx.job.amount as int) > 0,
    ensures
        spec_resolve_error(ctx, addresses, now) is Some,
        spec_address_matches(addresses.job_vault, ctx.job_vault.key) ==> spec_vault_error(
            ctx.job,
            ctx.job_vault,
            addresses.job_vault,
        ) == Some(TrustNetError::InsufficientFunds),
        ctx.job.amount >= 100,
{
    lemma_bps_of_bound(ctx.job.amount as int, 100);
    if ctx.job.amount < 100 {
        assert(spec_dispute_fee(ctx.job.amount as int) == 0) by (nonlinear_arith)
            requires
                0 <= ctx.job.amount < 100,
                spec_dispute_fee(ctx.job.amount as int) == ctx.job.amount * 100 / 10_000,
        ;
    }
}

/// An acceptance is owed to the provider that a created job names, for a
/// stake that is not zero, where the vault can hold the stake as well: it
/// then succeeds and leaves the vault greater by the stake. An acceptance of
/// a job in any other state is refused with `InvalidStatus` and changes
/// nothing.
pub proof fn law_accept_is_owed(
    before: AcceptJob,
    after: AcceptJob,
    locked: Result<Vec<Transfer>, TrustNetError>,
    stake_amount: u64,
)
    requires
        spec_accept_outcome(before, after, locked, stake_amount),
        before.job.provider@ == before.provider@,
    ensures
        before.job.status == JobStatus::Created && stake_amount > 0 && before.job_vault.lamports
            + stake_amount <= u64::MAX ==> locked is Ok && after.job.provider_stake
            == stake_amount && after.job_vault.lamports == before.job_vault.lamports
            + stake_amount,
        before.job.status != JobStatus::Created ==> locked == Err::<Vec<Transfer>, TrustNetError>(
            TrustNetError::InvalidStatus,
        ) && after == before,
{
}


/// Where the provider is paid, the payout and the treasury's fee add up to
/// the amount and the stake, and the fee is ten basis points of the amount,
/// rounded down.
pub proof fn law_fee_conservation(job: JobEscrow, vault: Pubkey, treasury: Pubkey)
    requires
        job.amount + job.provider_stake <= u64::MAX,
    ensures
        spec_provider_payout(job) + spec_protocol_fee(job.amount as int) == job.amount
            + job.provider_stake,
        spec_protocol_fee(job.amount as int) == job.amount * 10 / 10_000,
        spec_moved(spec_release_transfers(job, vault, treasury)) == job.amount + job.provider_stake,
        spec_moved(spec_refund_transfers(job, vault)) == job.amount + job.provider_stake,
{
    lemma_release_conserves(job, vault, treasury);
    lemma_refund_conserves(job, vault);
}

/// A commitment leaves the weights and the outcome of the dispute as they
/// were, and records a commitment that is not revealed.
pub proof fn law_commit(
    before: CommitVote,
    after: CommitVote,
    done: Result<(), TrustNetError>,
    vote_hash: [u8; 32],
)
    requires
        spec_commit_outcome(before, after, done, vote_hash),
        done is Ok,
    ensures
        before.dispute.wf() ==> after.dispute.wf(),
        after.dispute.client_weight == before.dispute.client_weight,
        after.dispute.provider_weight == before.dispute.provider_weight,
        after.vote_commitment is Some,
        after.vote_commitment->0.wf(),
        !after.vote_commitment->0.revealed,
{
}

/// An arbiter commits once in a dispute: once its commitment is recorded,
/// every further commitment is refused, and the hash stands.
pub proof fn law_commit_once(
    again: CommitVote,
    after: CommitVote,
    done: Result<(), TrustNetError>,
    vote_hash: [u8; 32],
)
    requires
        again.vote_commitment is Some,
        spec_commit_outcome(again, after, done, vote_hash),
    ensures
        done is Err,
        after == again,
        after.vote_commitment->0.commit_hash == again.vote_commitment->0.commit_hash,
{
}

/// A rater rates a job once: once its rating is recorded, every further
/// rating is refused, and neither the average nor the count changes.
pub proof fn law_rated_once(
    again: RateJob,
    after: RateJob,
    done: Result<(), TrustNetError>,
    job_id: [u8; 32],
    score: u8,
    tags: Vec<u8>,
    comment_hash: [u8; 32],
    now: i64,
)
    requires
        again.rating is Some,
        spec_rate_outcome(again, after, done, job_id, score, tags, comment_hash, now),
    ensures
        done == Err::<(), TrustNetError>(TrustNetError::AlreadyRated),
        after == again,
{
}

/// A job is created once: a context that holds the job already is refused
/// with `InvalidStatus`, and the job stands.
pub proof fn law_job_created_once(
    again: CreateJob,
    after: CreateJob,
    locked: Result<Vec<Transfer>, TrustNetError>,
    job: JobEscrow,
)
    requires
        again.job is Some,
        spec_create_outcome(again, after, locked, job),
    ensures
        locked == Err::<Vec<Transfer>, TrustNetError>(TrustNetError::InvalidStatus),
        after == again,
{
}

/// An arbiter registers once: one that is registered already is refused with
/// `InvalidStatus`, and its record and vault stand.
pub proof fn law_arbiter_registered_once(
    again: RegisterArbiter,
    after: RegisterArbiter,
    locked: Result<Vec<Transfer>, TrustNetError>,
    stake_amount: u64,
    specializations: Vec<u8>,
    now: i64,
)
    requires
        again.arbiter is Some,
        spec_register_outcome(again, after, locked, stake_amount, specializations, now),
    ensures
        locked == Err::<Vec<Transfer>, TrustNetError>(TrustNetError::InvalidStatus),
        after == again,
{
}

/// A reputation record is opened once: an agent that has one already is
/// refused with `InvalidStatus`, and its record and vault stand.
pub proof fn law_reputation_opened_once(
    again: InitReputation,
    after: InitReputation,
    locked: Result<Vec<Transfer>, TrustNetError>,
    stake_lamports: u64,
    specializations: Vec<u8>,
    now: i64,
)
    requires
        again.reputation is Some,
        spec_init_reputation_outcome(again, after, locked, stake_lamports, specializations, now),
    ensures
        locked == Err::<Vec<Transfer>, TrustNetError>(TrustNetError::InvalidStatus),
        after == again,
{
}


/// An authorized reveal of a commitment not yet revealed, in a dispute that
/// is still voting, succeeds exactly when the digest recomputed from the
/// disclosed vote and salt is the one committed to: a vote or salt that hashes
/// to anything else is refused with `InvalidVoteReveal`, and nothing changes.
pub proof fn law_reveal_integrity(
    before: RevealVote,
    after: RevealVote,
    done: Result<(), TrustNetError>,
    vote_bool: bool,
    digest: [u8; 32],
)
    requires
        spec_reveal_outcome(before, after, done, vote_bool, digest),
        before.arbiter.authority@ == before.arbiter_authority@,
        before.dispute.spec_is_voting(),
        !before.vote_commitment.revealed,
    ensures
        done is Ok <==> digest@ == before.vote_commitment.commit_hash@,
        digest@ != before.vote_commitment.commit_hash@ ==> done == Err::<(), TrustNetError>(
            TrustNetError::InvalidVoteReveal,
        ) && after == before,
        done is Ok ==> after.vote_commitment.revealed && after.vote_commitment.vote == Some(
            vote_bool,
        ),
{
}

/// A commitment is revealed once and its weight is counted once: a reveal of
/// a commitment that is revealed already is refused, whatever vote and digest
/// it brings, and leaves the weights, the recorded vote and all else as they
/// were. Where the reveal is authorized and the dispute still voting, the
/// refusal is `InvalidVoteReveal`.
pub proof fn law_revealed_once(
    again: RevealVote,
    after: RevealVote,
    done: Result<(), TrustNetError>,
    vote_bool: bool,
    digest: [u8; 32],
)
    requires
        again.vote_commitment.revealed,
        spec_reveal_outcome(again, after, done, vote_bool, digest),
    ensures
        done is Err,
        after == again,
        after.dispute.client_weight == again.dispute.client_weight,
        after.dispute.provider_weight == again.dispute.provider_weight,
        after.vote_commitment.vote == again.vote_commitment.vote,
        again.arbiter.authority@ == again.arbiter_authority@ && again.dispute.spec_is_voting()
            ==> done == Err::<(), TrustNetError>(TrustNetError::InvalidVoteReveal),
{
}


/// A reveal never takes weight away from a side, and leaves the outcome of
/// the dispute open.
pub proof fn law_reveal_adds_weight(
    before: RevealVote,
    after: RevealVote,
    done: Result<(), TrustNetError>,
    vote_bool: bool,
    digest: [u8; 32],
)
    requires
        spec_reveal_outcome(before, after, done, vote_bool, digest),
        done is Ok,
    ensures
        after.dispute.client_weight >= before.dispute.client_weight,
        after.dispute.provider_weight >= before.dispute.provider_weight,
        before.dispute.wf() ==> after.dispute.wf(),
        after.vote_commitment.wf(),
{
}

/// The outcome of a resolution depends on the two weights, the time and the
/// reveal deadline alone: two disputes that agree in these resolve alike.
pub proof fn law_resolution_determined(a: Dispute, b: Dispute, now: i64)
    requires
        a.client_weight == b.client_weight,
        a.provider_weight == b.provider_weight,
        a.reveal_deadline == b.reveal_deadline,
    ensures
        spec_resolution(a, now) == spec_resolution(b, now),
{
}

/// A dispute is resolved once. A resolution records the outcome, leaves the
/// weights as they were and takes the job to resolved; from then on the job is
/// no longer disputed, so that every further resolution of it is refused with
/// `InvalidStatus`, whenever it is tried, whatever panel and addresses it is
/// handed, and nothing is slashed, rewarded or paid again.
pub proof fn law_resolved_once(
    before: ResolveDispute,
    after: ResolveDispute,
    moved: Result<Vec<Transfer>, TrustNetError>,
    addresses: VaultAddresses,
    now: i64,
    again: ResolveDispute,
    again_after: ResolveDispute,
    again_moved: Result<Vec<Transfer>, TrustNetError>,
    later_addresses: VaultAddresses,
    later: i64,
)
    requires
        spec_resolve_outcome(before, after, moved, addresses, now),
        moved is Ok,
        again.job == after.job,
        spec_resolve_outcome(again, again_after, again_moved, later_addresses, later),
    ensures
        after.dispute.wf(),
        after.dispute.resolved_in_favor_of_client == Some(!spec_resolution(before.dispute, now)),
        after.dispute.client_weight == before.dispute.client_weight,
        after.dispute.provider_weight == before.dispute.provider_weight,
        spec_resolve_error(after, later_addresses, later) == Some(TrustNetError::InvalidStatus),
        again_moved == Err::<Vec<Transfer>, TrustNetError>(TrustNetError::InvalidStatus),
        again_after == again,
{
}


/// What the reward transfers of the first `n` entries move is what those
/// entries are paid.
pub proof fn lemma_reward_transfers_sum(
    panel: Seq<PanelMember>,
    pool_key: Pubkey,
    pool: int,
    provider_wins: bool,
    n: int,
)
    requires
        0 <= pool <= u64::MAX,
        0 <= n <= panel.len(),
    ensures
        spec_moved(
            spec_reward_transfers(
                panel,
                pool_key,
                pool,
                spec_winning_weight(panel, provider_wins, panel.len() as int),
                provider_wins,
                n,
            ),
        ) == spec_rewards_paid(
            panel,
            pool,
            spec_winning_weight(panel, provider_wins, panel.len() as int),
            provider_wins,
            n,
        ),
    decreases n,
{
    let total = spec_winning_weight(panel, provider_wins, panel.len() as int);
    if n > 0 {
        lemma_reward_transfers_sum(panel, pool_key, pool, provider_wins, n - 1);
        let before = spec_reward_transfers(panel, pool_key, pool, total, provider_wins, n - 1);
        let reward = spec_reward(panel[n - 1], pool, total, provider_wins);
        if reward > 0 {
            lemma_winning_weight_monotonic(panel, provider_wins, n, panel.len() as int);
            lemma_winning_weight_monotonic(panel, provider_wins, 0, n - 1);
            lemma_share_bound(pool, panel[n - 1].arbiter.spec_weight() as int, total);
            let t = Transfer {
                from: pool_key,
                to: panel[n - 1].reward_account,
                lamports: reward as u64,
            };
            assert(before.push(t).drop_last() =~= before);
        }
    }
}

/// The shares that a resolution distributes never exceed what the dispute's
/// fee pool holds: each share is rounded down, and what rounding leaves over
/// stays in the pool.
pub proof fn law_reward_bound(ctx: ResolveDispute, now: i64)
    ensures
        0 <= spec_pool_paid(ctx, now) <= ctx.dispute_vault.lamports,
        spec_moved(
            spec_reward_transfers(
                ctx.panel@,
                ctx.dispute_vault.key,
                ctx.dispute_vault.lamports as int,
                spec_pool_weight(ctx, now),
                spec_resolution(ctx.dispute, now),
                ctx.panel@.len() as int,
            ),
        ) == spec_pool_paid(ctx, now),
{
    lemma_rewards_bounded(
        ctx.panel@,
        ctx.dispute_vault.lamports as int,
        spec_resolution(ctx.dispute, now),
        ctx.panel@.len() as int,
    );
    lemma_reward_transfers_sum(
        ctx.panel@,
        ctx.dispute_vault.key,
        ctx.dispute_vault.lamports as int,
        spec_resolution(ctx.dispute, now),
        ctx.panel@.len() as int,
    );
}

/// A provider who holds at least 60 percent of the weight wins whatever the
/// time. Where neither side holds that much, the provider wins exactly when
/// the reveal deadline has passed.
pub proof fn law_supermajority(provider_weight: int, client_weight: int, now: int, reveal_deadline: int)
    requires
        0 <= provider_weight,
        0 <= client_weight,
        0 < provider_weight + client_weight,
    ensures
        provider_weight * 100 >= 60 * (provider_weight + client_weight) ==> spec_provider_wins(
            client_weight,
            provider_weight,
            now,
            reveal_deadline,
        ),
        provider_weight * 100 < 60 * (provider_weight + client_weight) && client_weight * 100 < 60
            * (provider_weight + client_weight) ==> spec_provider_wins(
            client_weight,
            provider_weight,
            now,
            reveal_deadline,
        ) == (now > reveal_deadline),
{
    let total = provider_weight + client_weight;
    vstd::arithmetic::div_mod::lemma_fundamental_div_mod(provider_weight * 100, total);
    vstd::arithmetic::div_mod::lemma_fundamental_div_mod(client_weight * 100, total);
    let pq = provider_weight * 100 / total;
    let cq = client_weight * 100 / total;
    assert(provider_weight * 100 >= 60 * total ==> pq >= 60) by (nonlinear_arith)
        requires
            provider_weight * 100 == total * pq + (provider_weight * 100) % total,
            0 <= (provider_weight * 100) % total < total,
            total > 0,
    ;
    assert(provider_weight * 100 < 60 * total ==> pq < 60) by (nonlinear_arith)
        requires
            provider_weight * 100 == total * pq + (provider_weight * 100) % total,
            0 <= (provider_weight * 100) % total < total,
            total > 0,
    ;
    assert(client_weight * 100 < 60 * total ==> cq < 60) by (nonlinear_arith)
        requires
            client_weight * 100 == total * cq + (client_weight * 100) % total,
            0 <= (client_weight * 100) % total < total,
            total > 0,
    ;
}

} // verus!
