use vstd::prelude::*;
use vstd::arithmetic::div_mod::lemma_fundamental_div_mod;
use crate::ledger::{address_matches, spec_address_matches, ProgramAddress, Pubkey, Transfer, Vault};
use crate::state::job_escrow::{JobEscrow, JobStatus};
use crate::utils::constants::{BPS_DENOMINATOR, DISPUTE_FEE_BPS, PROTOCOL_FEE_BPS};
use crate::utils::errors::TrustNetError;

verus! {

/// `bps` basis points of `value`, rounded down.
pub open spec fn spec_bps_of(value: int, bps: int) -> int {
    value * bps / 10_000
}

/// At most the whole is taken where the basis points do not exceed one whole.
pub proof fn lemma_bps_of_bound(value: int, bps: int)
    requires
        0 <= value,
        0 <= bps <= 10_000,
    ensures
        0 <= spec_bps_of(value, bps) <= value,
{
    let n = value * bps;
    assert(0 <= n <= value * 10_000) by (nonlinear_arith)
        requires
            n == value * bps,
            0 <= value,
            0 <= bps <= 10_000,
    ;
    lemma_fundamental_div_mod(n, 10_000);
}

/// `bps` basis points of `value`, rounded down.
pub fn bps_of(value: u64, bps: u64) -> (part: u64)
    requires
        spec_bps_of(value as int, bps as int) <= u64::MAX,
    ensures
        part == spec_bps_of(value as int, bps as int),
{
    assert(0 <= value * bps <= 0xffff_ffff_ffff_ffff * 0xffff_ffff_ffff_ffff) by (nonlinear_arith)
        requires
            0 <= value <= 0xffff_ffff_ffff_ffff,
            0 <= bps <= 0xffff_ffff_ffff_ffff,
    ;
    let product: u128 = value as u128 * bps as u128;
    (product / (BPS_DENOMINATOR as u128)) as u64
}

/// The protocol's fee on a job of `amount`.
pub open spec fn spec_protocol_fee(amount: int) -> int {
    spec_bps_of(amount, 10)
}

/// The fee that a dispute over a job of `amount` moves into its pool.
pub open spec fn spec_dispute_fee(amount: int) -> int {
    spec_bps_of(amount, 100)
}

/// The protocol's fee on a job of `amount`.
pub fn protocol_fee(amount: u64) -> (fee: u64)
    ensures
        fee == spec_protocol_fee(amount as int),
        fee <= amount,
{
    proof {
        lemma_bps_of_bound(amount as int, 10);
    }
    bps_of(amount, PROTOCOL_FEE_BPS)
}

/// The fee that a dispute over a job of `amount` moves into its pool.
pub fn dispute_fee(amount: u64) -> (fee: u64)
    ensures
        fee == spec_dispute_fee(amount as int),
        fee <= amount,
{
    proof {
        lemma_bps_of_bound(amount as int, 100);
    }
    bps_of(amount, DISPUTE_FEE_BPS)
}

/// What the job locks in all, where that is a 64-bit amount.
pub fn locked_total(job: &JobEscrow) -> (total: Result<u64, TrustNetError>)
    ensures
        total is Ok <==> job.spec_locked() <= u64::MAX,
        total matches Ok(t) ==> t == job.spec_locked(),
        total matches Err(e) ==> e == TrustNetError::InsufficientFunds,
{
    match job.amount.checked_add(job.provider_stake) {
        Some(t) => Ok(t),
        None => Err(TrustNetError::InsufficientFunds),
    }
}

/// What the provider receives when the locked value is released: all of it
/// but the protocol's fee.
pub open spec fn spec_provider_payout(job: JobEscrow) -> int {
    job.spec_locked() - spec_protocol_fee(job.amount as int)
}

/// The transfers that release the locked value to the provider: the payout,
/// then the fee to the treasury where there is one.
pub open spec fn spec_release_transfers(job: JobEscrow, vault: Pubkey, treasury: Pubkey) -> Seq<
    Transfer,
> {
    let payout = Transfer {
        from: vault,
        to: job.provider,
        lamports: spec_provider_payout(job) as u64,
    };
    let fee = Transfer {
        from: vault,
        to: treasury,
        lamports: spec_protocol_fee(job.amount as int) as u64,
    };
    if fee.lamports > 0 {
        seq![payout, fee]
    } else {
        seq![payout]
    }
}

/// The transfer that refunds the locked value to the client.
pub open spec fn spec_refund_transfers(job: JobEscrow, vault: Pubkey) -> Seq<Transfer> {
    seq![Transfer { from: vault, to: job.client, lamports: job.spec_locked() as u64 }]
}

/// The sum of the lamports that a list of transfers moves.
pub open spec fn spec_moved(transfers: Seq<Transfer>) -> int
    decreases transfers.len(),
{
    if transfers.len() == 0 {
        0
    } else {
        spec_moved(transfers.drop_last()) + transfers.last().lamports
    }
}

/// A release moves exactly what the job locks: the provider's payout and the
/// treasury's fee add up to the amount and the stake, and the fee is the
/// protocol's share of the amount.
pub proof fn lemma_release_conserves(job: JobEscrow, vault: Pubkey, treasury: Pubkey)
    requires
        job.spec_locked() <= u64::MAX,
    ensures
        spec_provider_payout(job) + spec_protocol_fee(job.amount as int) == job.amount
            + job.provider_stake,
        spec_protocol_fee(job.amount as int) == job.amount * 10 / 10_000,
        0 <= spec_provider_payout(job) <= u64::MAX,
        spec_release_transfers(job, vault, treasury)[0].to == job.provider,
        spec_release_transfers(job, vault, treasury)[0].lamports == spec_provider_payout(job),
        spec_moved(spec_release_transfers(job, vault, treasury)) == job.amount + job.provider_stake,
{
    lemma_bps_of_bound(job.amount as int, 10);
    let ts = spec_release_transfers(job, vault, treasury);
    reveal_with_fuel(spec_moved, 3);
    if ts.len() == 2 {
        assert(ts.drop_last() =~= seq![ts[0]]);
        assert(ts.drop_last().drop_last() =~= Seq::<Transfer>::empty());
    } else {
        assert(ts.drop_last() =~= Seq::<Transfer>::empty());
    }
}

/// A refund moves exactly what the job locks.
pub proof fn lemma_refund_conserves(job: JobEscrow, vault: Pubkey)
    requires
        job.spec_locked() <= u64::MAX,
    ensures
        spec_moved(spec_refund_transfers(job, vault)) == job.amount + job.provider_stake,
{
    let ts = spec_refund_transfers(job, vault);
    reveal_with_fuel(spec_moved, 2);
    assert(ts.drop_last() =~= Seq::<Transfer>::empty());
}

/// Releases the locked value from the job's vault: the payout to the
/// provider, the fee to the treasury. A vault that holds less than the job
/// locks refuses with `InsufficientFunds` and stays as it was.
pub fn release_to_provider(vault: &mut Vault, job: &JobEscrow, treasury: &Pubkey) -> (released:
    Result<Vec<Transfer>, TrustNetError>)
    ensures
        released is Ok <==> job.spec_locked() <= old(vault).lamports,
        released matches Ok(ts) ==> {
            &&& ts@ == spec_release_transfers(*job, old(vault).key, *treasury)
            &&& final(vault).key == old(vault).key
            &&& final(vault).lamports == old(vault).lamports - job.spec_locked()
        },
        released matches Err(e) ==> e == TrustNetError::InsufficientFunds && *final(vault) == *old(
            vault,
        ),
{
    let total: u64 = match locked_total(job) {
        Ok(t) => t,
        Err(e) => {
            return Err(e);
        },
    };
    if vault.lamports < total {
        return Err(TrustNetError::InsufficientFunds);
    }
    let fee: u64 = protocol_fee(job.amount);
    let payout: u64 = total - fee;
    let mut transfers: Vec<Transfer> = Vec::new();
    transfers.push(Transfer { from: vault.key, to: job.provider, lamports: payout });
    if fee > 0 {
        transfers.push(Transfer { from: vault.key, to: *treasury, lamports: fee });
    }
    vault.lamports = vault.lamports - total;
    assert(transfers@ =~= spec_release_transfers(*job, old(vault).key, *treasury));
    Ok(transfers)
}

/// Refunds the locked value from the job's vault to the client. A vault that
/// holds less than the job locks refuses with `InsufficientFunds` and stays
/// as it was.
pub fn refund_to_client(vault: &mut Vault, job: &JobEscrow) -> (refunded: Result<
    Vec<Transfer>,
    TrustNetError,
>)
    ensures
        refunded is Ok <==> job.spec_locked() <= old(vault).lamports,
        refunded matches Ok(ts) ==> {
            &&& ts@ == spec_refund_transfers(*job, old(vault).key)
            &&& final(vault).key == old(vault).key
            &&& final(vault).lamports == old(vault).lamports - job.spec_locked()
        },
        refunded matches Err(e) ==> e == TrustNetError::InsufficientFunds && *final(vault) == *old(
            vault,
        ),
{
    let total: u64 = match locked_total(job) {
        Ok(t) => t,
        Err(e) => {
            return Err(e);
        },
    };
    if vault.lamports < total {
        return Err(TrustNetError::InsufficientFunds);
    }
    let mut transfers: Vec<Transfer> = Vec::new();
    transfers.push(Transfer { from: vault.key, to: job.client, lamports: total });
    vault.lamports = vault.lamports - total;
    assert(transfers@ =~= spec_refund_transfers(*job, old(vault).key));
    Ok(transfers)
}

/// Why the vault refuses to pay out what the job locks, if it does: the first
/// of these that holds.
pub open spec fn spec_vault_error(
    job: JobEscrow,
    vault: Vault,
    expected: Option<ProgramAddress>,
) -> Option<TrustNetError> {
    if job.spec_locked() > u64::MAX {
        Some(TrustNetError::InsufficientFunds)
    } else if !spec_address_matches(expected, vault.key) {
        Some(TrustNetError::Unauthorized)
    } else if vault.lamports < job.spec_locked() {
        Some(TrustNetError::InsufficientFunds)
    } else {
        None
    }
}

/// The vault once it has paid out what the job locks.
pub open spec fn spec_drained(job: JobEscrow, vault: Vault) -> Vault {
    Vault { key: vault.key, lamports: (vault.lamports - job.spec_locked()) as u64 }
}

/// Refunds the locked value to the client from a vault that is first held
/// against the address `expected` derived for it.
pub fn refund_checked(vault: &mut Vault, job: &JobEscrow, expected: &Option<ProgramAddress>) -> (
refunded: Result<Vec<Transfer>, TrustNetError>)
    ensures
        match refunded {
            Ok(ts) => {
                &&& spec_vault_error(*job, *old(vault), *expected) is None
                &&& ts@ == spec_refund_transfers(*job, old(vault).key)
                &&& *final(vault) == spec_drained(*job, *old(vault))
            },
            Err(e) => spec_vault_error(*job, *old(vault), *expected) == Some(e) && *final(vault)
                == *old(vault),
        },
{
    match locked_total(job) {
        Ok(_) => {},
        Err(e) => {
            return Err(e);
        },
    }
    if !address_matches(expected, &vault.key) {
        return Err(TrustNetError::Unauthorized);
    }
    refund_to_client(vault, job)
}

/// Releases the locked value to the provider, less the fee, from a vault that
/// is first held against the address `expected` derived for it.
pub fn release_checked(
    vault: &mut Vault,
    job: &JobEscrow,
    treasury: &Pubkey,
    expected: &Option<ProgramAddress>,
) -> (released: Result<Vec<Transfer>, TrustNetError>)
    ensures
        match released {
            Ok(ts) => {
                &&& spec_vault_error(*job, *old(vault), *expected) is None
                &&& ts@ == spec_release_transfers(*job, old(vault).key, *treasury)
                &&& *final(vault) == spec_drained(*job, *old(vault))
            },
            Err(e) => spec_vault_error(*job, *old(vault), *expected) == Some(e) && *final(vault)
                == *old(vault),
        },
{
    match locked_total(job) {
        Ok(_) => {},
        Err(e) => {
            return Err(e);
        },
    }
    if !address_matches(expected, &vault.key) {
        return Err(TrustNetError::Unauthorized);
    }
    release_to_provider(vault, job, treasury)
}

/// The vault of a job holds what the job's state calls for: the amount once
/// created, the amount and the stake while the job is active or submitted,
/// the same less the dispute's fee while it is disputed, and nothing once the
/// job has reached a terminal state.
pub open spec fn spec_vault_balanced(job: JobEscrow, vault: Vault) -> bool {
    match job.status {
        JobStatus::Created => vault.lamports == job.amount,
        JobStatus::Active | JobStatus::Submitted => vault.lamports == job.amount
            + job.provider_stake,
        JobStatus::Disputed => vault.lamports == job.amount + job.provider_stake
            - spec_dispute_fee(job.amount as int),
        JobStatus::Completed | JobStatus::Resolved | JobStatus::Cancelled | JobStatus::Expired => {
            vault.lamports == 0
        },
    }
}

} // verus!
