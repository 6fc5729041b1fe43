use vstd::prelude::*;
use crate::utils::errors::TrustNetError;

verus! {

/// The identity of a party or the address of a record or vault: 32 bytes.
#[derive(Clone, Copy, Debug, Eq)]
pub struct Pubkey {
    pub bytes: [u8; 32],
}

impl View for Pubkey {
    type V = Seq<u8>;

    open spec fn view(&self) -> Seq<u8> {
        self.bytes@
    }
}

impl PartialEq for Pubkey {
    fn eq(&self, other: &Pubkey) -> (same: bool) {
        bytes_equal(&self.bytes, &other.bytes)
    }
}

impl vstd::std_specs::cmp::PartialEqSpecImpl for Pubkey {
    open spec fn obeys_eq_spec() -> bool {
        true
    }

    open spec fn eq_spec(&self, other: &Pubkey) -> bool {
        self.bytes@ == other.bytes@
    }
}

/// Whether two 32-byte values hold the same bytes.
pub fn bytes_equal(a: &[u8; 32], b: &[u8; 32]) -> (same: bool)
    ensures
        same == (a@ == b@),
        same == (*a == *b),
{
    let mut i: usize = 0;
    while i < 32
        invariant
            i <= 32,
            forall|j: int| 0 <= j < i ==> a@[j] == b@[j],
        decreases 32 - i,
    {
        if a[i] != b[i] {
            return false;
        }
        i = i + 1;
    }
    assert(a@ =~= b@);
    assert(*a =~= *b);
    true
}

/// A reading of the ledger's clock.
#[derive(Clone, Copy, Debug, PartialEq, Eq)]
pub struct Clock {
    pub slot: u64,
    pub epoch_start_timestamp: i64,
    pub epoch: u64,
    pub leader_schedule_epoch: u64,
    pub unix_timestamp: i64,
}

/// A transfer of value for the ledger to carry out.
#[derive(Clone, Copy, Debug, PartialEq, Eq)]
pub struct Transfer {
    pub from: Pubkey,
    pub to: Pubkey,
    pub lamports: u64,
}

/// A ledger account that holds locked value for a job, for a dispute's fee
/// pool or for a stake.
#[derive(Clone, Copy, Debug, PartialEq, Eq)]
pub struct Vault {
    pub key: Pubkey,
    pub lamports: u64,
}

impl Vault {
    /// A vault at `key` that holds nothing yet.
    pub fn open(key: Pubkey) -> (vault: Vault)
        ensures
            vault.key == key,
            vault.lamports == 0,
    {
        Vault { key, lamports: 0 }
    }

    /// Takes `lamports` out of the vault for `to`. A vault that holds less
    /// refuses with `InsufficientFunds` and stays as it was.
    pub fn withdraw(&mut self, to: &Pubkey, lamports: u64) -> (moved: Result<
        Transfer,
        TrustNetError,
    >)
        ensures
            moved is Ok <==> old(self).lamports >= lamports,
            moved matches Ok(t) ==> {
                &&& final(self).key == old(self).key
                &&& final(self).lamports == old(self).lamports - lamports
                &&& t == (Transfer { from: old(self).key, to: *to, lamports })
            },
            moved matches Err(e) ==> e == TrustNetError::InsufficientFunds && *final(self) == *old(
                self,
            ),
    {
        if self.lamports < lamports {
            return Err(TrustNetError::InsufficientFunds);
        }
        self.lamports = self.lamports - lamports;
        Ok(Transfer { from: self.key, to: *to, lamports })
    }

    /// Puts `lamports` from `from` into the vault. A vault that cannot hold
    /// the sum refuses with `InsufficientFunds` and stays as it was.
    pub fn deposit(&mut self, from: &Pubkey, lamports: u64) -> (moved: Result<
        Transfer,
        TrustNetError,
    >)
        ensures
            moved is Ok <==> old(self).lamports + lamports <= u64::MAX,
            moved matches Ok(t) ==> {
                &&& final(self).key == old(self).key
                &&& final(self).lamports == old(self).lamports + lamports
                &&& t == (Transfer { from: *from, to: old(self).key, lamports })
            },
            moved matches Err(e) ==> e == TrustNetError::InsufficientFunds && *final(self) == *old(
                self,
            ),
    {
        match self.lamports.checked_add(lamports) {
            Some(sum) => {
                self.lamports = sum;
                Ok(Transfer { from: *from, to: self.key, lamports })
            },
            None => Err(TrustNetError::InsufficientFunds),
        }
    }
}

/// An address derived for a program from seeds, with the bump seed that was
/// found for it.
#[derive(Clone, Copy, Debug, PartialEq, Eq)]
pub struct ProgramAddress {
    pub address: Pubkey,
    pub bump: u8,
}

/// The address that the ledger derives for the program `program_id` from
/// `seeds`, with its bump seed; `None` where it derives none.
pub uninterp spec fn program_address(seeds: Seq<Seq<u8>>, program_id: Seq<u8>) -> Option<
    (Seq<u8>, u8),
>;

/// `found` is what the ledger derives from `seeds` for `program_id`.
pub open spec fn is_program_address(
    found: Option<ProgramAddress>,
    seeds: Seq<Seq<u8>>,
    program_id: Seq<u8>,
) -> bool {
    match found {
        Some(p) => program_address(seeds, program_id) == Some((p.address@, p.bump)),
        None => program_address(seeds, program_id) is None,
    }
}

/// Calls `anchor_lang::prelude::Pubkey::try_find_program_address` with the two
/// seeds `tag` and `owner`, after the program's key is made into a key of that
/// crate with `Pubkey::new_from_array`. The contract claims only that the
/// result is a function of the seeds and the program's key: the same arguments
/// always derive the same address and bump, or none. What the address is, is
/// not stated.
#[verifier::external_body]
fn try_find_program_address(tag: &[u8], owner: &[u8], program_id: &Pubkey) -> (found: Option<
    ProgramAddress,
>)
    ensures
        match found {
            Some(p) => program_address(seq![tag@, owner@], program_id@) == Some(
                (p.address@, p.bump),
            ),
            None => program_address(seq![tag@, owner@], program_id@) is None,
        },
{
    let id = anchor_lang::prelude::Pubkey::new_from_array(program_id.bytes);
    match anchor_lang::prelude::Pubkey::try_find_program_address(&[tag, owner], &id) {
        Some((k, bump)) => Some(ProgramAddress { address: Pubkey { bytes: k.to_bytes() }, bump }),
        None => None,
    }
}

/// The tag under which the vault of a job is derived from the job's address.
pub const JOB_VAULT_SEED: [u8; 9] = [106, 111, 98, 95, 118, 97, 117, 108, 116];

/// The tag under which the fee pool of a dispute is derived from the
/// dispute's address.
pub const DISPUTE_VAULT_SEED: [u8; 13] = [100, 105, 115, 112, 117, 116, 101, 95, 118, 97, 117, 108, 116];

/// The tag under which the vault of an arbiter is derived from the arbiter's
/// authority.
pub const ARBITER_VAULT_SEED: [u8; 13] = [97, 114, 98, 105, 116, 101, 114, 95, 118, 97, 117, 108, 116];

/// The seeds of an address owned by one key: a tag, then the owner's bytes.
pub open spec fn spec_owned_seeds(tag: Seq<u8>, owner: Seq<u8>) -> Seq<Seq<u8>> {
    seq![tag, owner]
}

/// Derives the address that belongs to `owner` under `tag`: that of a job's
/// vault from the job's address, that of an arbiter's vault from the arbiter's
/// authority. The result is whatever the ledger derives from the two seeds.
pub fn find_owned_address(tag: &[u8], owner: &Pubkey, program_id: &Pubkey) -> (found: Option<
    ProgramAddress,
>)
    ensures
        is_program_address(found, spec_owned_seeds(tag@, owner@), program_id@),
{
    try_find_program_address(tag, owner.bytes.as_slice(), program_id)
}

/// Whether `key` is the address that was derived: no key matches where none
/// was derived.
pub open spec fn spec_address_matches(expected: Option<ProgramAddress>, key: Pubkey) -> bool {
    expected matches Some(p) && p.address@ == key@
}

/// Whether `key` is the derived address.
pub fn address_matches(expected: &Option<ProgramAddress>, key: &Pubkey) -> (matches: bool)
    ensures
        matches == spec_address_matches(*expected, *key),
{
    match expected {
        Some(p) => p.address == *key,
        None => false,
    }
}

/// Takes `lamports` out of `vault` for `to`, once the vault has been shown to
/// be the one at the derived address `expected`. A vault at another address
/// is refused with `Unauthorized`, one that holds too little with
/// `InsufficientFunds`; a refused vault stays as it was.
pub fn transfer_from_vault(
    vault: &mut Vault,
    to: &Pubkey,
    expected: &Option<ProgramAddress>,
    lamports: u64,
) -> (moved: Result<Transfer, TrustNetError>)
    ensures
        moved == spec_transfer_from_vault(*old(vault), *to, *expected, lamports),
        moved is Ok ==> final(vault).key == old(vault).key && final(vault).lamports == old(
            vault,
        ).lamports - lamports,
        moved is Err ==> *final(vault) == *old(vault),
{
    if !address_matches(expected, &vault.key) {
        return Err(TrustNetError::Unauthorized);
    }
    vault.withdraw(to, lamports)
}

/// What `transfer_from_vault` returns.
pub open spec fn spec_transfer_from_vault(
    vault: Vault,
    to: Pubkey,
    expected: Option<ProgramAddress>,
    lamports: u64,
) -> Result<Transfer, TrustNetError> {
    if !spec_address_matches(expected, vault.key) {
        Err(TrustNetError::Unauthorized)
    } else if vault.lamports < lamports {
        Err(TrustNetError::InsufficientFunds)
    } else {
        Ok(Transfer { from: vault.key, to, lamports })
    }
}

} // verus!
