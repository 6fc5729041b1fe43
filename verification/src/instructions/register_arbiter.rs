use vstd::prelude::*;
use crate::ledger::{Clock, Pubkey, Transfer, Vault};
use crate::state::arbiter::Arbiter;
use crate::utils::constants::{
    now_ts,
    INITIAL_ACCURACY_SCORE,
    MAX_SPECIALIZATIONS_LEN,
    MIN_ARBITER_STAKE_LAMPORTS,
};
use crate::utils::errors::TrustNetError;

verus! {

/// What the registration of an arbiter works on: the authority who registers,
/// the address and bump of the arbiter's record, the record, which is none
/// before the arbiter has registered, and the vault that holds the arbiter's
/// stake.
#[derive(Clone, Debug, PartialEq, Eq)]
pub struct RegisterArbiter {
    pub authority: Pubkey,
    pub arbiter_key: Pubkey,
    pub arbiter_bump: u8,
    pub arbiter: Option<Arbiter>,
    pub arbiter_vault: Vault,
}

/// Why an arbiter cannot register, if it cannot: the first of these that
/// holds. An arbiter registers once: one that is registered already is
/// refused.
pub open spec fn spec_register_error(
    ctx: RegisterArbiter,
    stake_amount: u64,
    specializations: Seq<u8>,
) -> Option<TrustNetError> {
    if ctx.arbiter is Some {
        Some(TrustNetError::InvalidStatus)
    } else if stake_amount < 1_000_000_000 {
        Some(TrustNetError::MinimumStakeNotMet)
    } else if specializations.len() > 64 {
        Some(TrustNetError::BytesTooLarge)
    } else if ctx.arbiter_vault.lamports + stake_amount > u64::MAX {
        Some(TrustNetError::InsufficientFunds)
    } else {
        None
    }
}

/// What a registration returns and leaves: an active arbiter with no case
/// judged and its accuracy at the middle of the scale, and the stake added to
/// what the vault held.
pub open spec fn spec_register_outcome(
    before: RegisterArbiter,
    after: RegisterArbiter,
    locked: Result<Vec<Transfer>, TrustNetError>,
    stake_amount: u64,
    specializations: Vec<u8>,
    now: i64,
) -> bool {
    match locked {
        Ok(ts) => {
            &&& spec_register_error(before, stake_amount, specializations@) is None
            &&& ts@ == seq![
                Transfer {
                    from: before.authority,
                    to: before.arbiter_vault.key,
                    lamports: stake_amount,
                },
            ]
            &&& after == (RegisterArbiter {
                arbiter: Some(
                    Arbiter {
                        authority: before.authority,
                        stake: stake_amount,
                        cases_judged: 0,
                        accuracy_score: 500,
                        specializations,
                        active: true,
                        created_at: now,
                        last_case: now,
                        bump: before.arbiter_bump,
                    },
                ),
                arbiter_vault: Vault {
                    key: before.arbiter_vault.key,
                    lamports: (before.arbiter_vault.lamports + stake_amount) as u64,
                },
                ..before
            })
        },
        Err(e) => spec_register_error(before, stake_amount, specializations@) == Some(e) && after == before,
    }
}

/// Registers an arbiter who stakes at least the least stake, and locks the
/// stake in a vault of its own. An arbiter that is registered already is
/// refused with `InvalidStatus`.
pub fn handler(
    ctx: &mut RegisterArbiter,
    stake_amount: u64,
    specializations: Vec<u8>,
    clock: &Clock,
) -> (locked: Result<Vec<Transfer>, TrustNetError>)
    ensures
        spec_register_outcome(
            *old(ctx),
            *final(ctx),
            locked,
            stake_amount,
            specializations,
            clock.unix_timestamp,
        ),
{
    if ctx.arbiter.is_some() {
        return Err(TrustNetError::InvalidStatus);
    }
    if stake_amount < MIN_ARBITER_STAKE_LAMPORTS {
        return Err(TrustNetError::MinimumStakeNotMet);
    }
    if specializations.len() > MAX_SPECIALIZATIONS_LEN {
        return Err(TrustNetError::BytesTooLarge);
    }
    let mut vault = ctx.arbiter_vault;
    let transfer = match vault.deposit(&ctx.authority, stake_amount) {
        Ok(t) => t,
        Err(e) => {
            return Err(e);
        },
    };
    let now: i64 = now_ts(clock);
    let mut transfers: Vec<Transfer> = Vec::new();
    transfers.push(transfer);
    ctx.arbiter = Some(
        Arbiter {
            authority: ctx.authority,
            stake: stake_amount,
            cases_judged: 0,
            accuracy_score: INITIAL_ACCURACY_SCORE,
            specializations,
            active: true,
            created_at: now,
            last_case: now,
            bump: ctx.arbiter_bump,
        },
    );
    ctx.arbiter_vault = vault;
    Ok(transfers)
}

} // verus!
