use vstd::prelude::*;
use vstd::arithmetic::div_mod::lemma_fundamental_div_mod;
use crate::instructions::settlement::{
    bps_of,
    lemma_bps_of_bound,
    refund_checked,
    release_checked,
    spec_bps_of,
    spec_drained,
    spec_refund_transfers,
    spec_release_transfers,
    spec_vault_balanced,
    spec_vault_error,
};
use crate::ledger::{
    find_owned_address,
    is_program_address,
    spec_address_matches,
    spec_owned_seeds,
    transfer_from_vault,
    Clock,
    ProgramAddress,
    Pubkey,
    Transfer,
    Vault,
    ARBITER_VAULT_SEED,
    DISPUTE_VAULT_SEED,
    JOB_VAULT_SEED,
};
use crate::state::arbiter::Arbiter;
use crate::state::dispute::{Dispute, DisputeStatus, VoteCommitment};
use crate::state::job_escrow::{JobEscrow, JobStatus};
use crate::utils::constants::{
    now_ts,
    NO_REVEAL_SLASH_BPS,
    SUPERMAJORITY_PERCENT,
    WRONG_VOTE_SLASH_BPS,
};
use crate::utils::errors::TrustNetError;
use crate::utils::math::integer_sqrt;

verus! {

/// One entry of the panel that the caller supplies: an arbiter with its
/// vault, its commitment in the dispute, and the account that takes its
/// reward. Nothing holds the panel against the arbiters selected for the
/// dispute: it is the caller's to get right.
#[derive(Clone, Debug, PartialEq, Eq)]
pub struct PanelMember {
    pub arbiter: Arbiter,
    pub arbiter_vault: Vault,
    pub vote: VoteCommitment,
    pub reward_account: Pubkey,
}

/// What the resolution of a dispute works on: the dispute and the job with
/// their addresses, the job's vault, the dispute's fee pool, the treasury, the
/// panel, and the program under which the vaults' addresses are derived.
#[derive(Clone, Debug, PartialEq, Eq)]
pub struct ResolveDispute {
    pub dispute_key: Pubkey,
    pub dispute: Dispute,
    pub job_key: Pubkey,
    pub job: JobEscrow,
    pub job_vault: Vault,
    pub dispute_vault: Vault,
    pub treasury: Pubkey,
    pub panel: Vec<PanelMember>,
    pub program_id: Pubkey,
}

/// The addresses derived for the vaults that a resolution takes from: the
/// job's, the fee pool's, and one for each entry of the panel, in its order.
/// An entry of the panel beyond the end of the list has no address.
#[derive(Clone, Debug, PartialEq, Eq)]
pub struct VaultAddresses {
    pub job_vault: Option<ProgramAddress>,
    pub dispute_vault: Option<ProgramAddress>,
    pub arbiter_vaults: Vec<Option<ProgramAddress>>,
}

/// The share of `total` that `part` makes, in percent, rounded down; zero
/// of nothing.
pub open spec fn spec_ratio(part: int, total: int) -> int {
    if total == 0 {
        0
    } else {
        part * 100 / total
    }
}

/// Whether the provider wins a dispute with the given weights when it is
/// resolved at the time `now`: a side that holds 60 percent of the weight
/// wins, the provider first; with no such side the provider wins exactly when
/// the reveal deadline has passed.
pub open spec fn spec_provider_wins(
    client_weight: int,
    provider_weight: int,
    now: int,
    reveal_deadline: int,
) -> bool {
    let total = client_weight + provider_weight;
    if spec_ratio(provider_weight, total) >= 60 {
        true
    } else if spec_ratio(client_weight, total) >= 60 {
        false
    } else {
        now > reveal_deadline
    }
}

/// The share of `total` that `part` makes, in percent, rounded down.
pub fn ratio(part: u64, total: u128) -> (percent: u128)
    ensures
        percent == spec_ratio(part as int, total as int),
{
    if total == 0 {
        0
    } else {
        (part as u128 * 100) / total
    }
}

/// Whether the provider wins a dispute with the given weights when it is
/// resolved at the time `now`.
pub fn provider_wins(client_weight: u64, provider_weight: u64, now: i64, reveal_deadline: i64) -> (
wins: bool)
    ensures
        wins == spec_provider_wins(
            client_weight as int,
            provider_weight as int,
            now as int,
            reveal_deadline as int,
        ),
{
    let total: u128 = client_weight as u128 + provider_weight as u128;
    if ratio(provider_weight, total) >= SUPERMAJORITY_PERCENT as u128 {
        true
    } else if ratio(client_weight, total) >= SUPERMAJORITY_PERCENT as u128 {
        false
    } else {
        now > reveal_deadline
    }
}

/// Whether the entry voted with the outcome: its vote is revealed and is for
/// the side that won.
pub open spec fn spec_is_winner(member: PanelMember, provider_wins: bool) -> bool {
    member.vote.revealed && member.vote.spec_voted_provider() == provider_wins
}

/// The basis points of its stake that the entry forfeits: 200 for a vote not
/// revealed once the reveal deadline has passed, 100 for a revealed vote
/// against the outcome, nothing else. The two never meet in one entry.
pub open spec fn spec_slash_bps(member: PanelMember, provider_wins: bool, late: bool) -> int {
    if !member.vote.revealed {
        if late {
            200
        } else {
            0
        }
    } else if member.vote.spec_voted_provider() != provider_wins {
        100
    } else {
        0
    }
}

/// The lamports that the entry forfeits.
pub open spec fn spec_slash_amount(member: PanelMember, provider_wins: bool, late: bool) -> int {
    spec_bps_of(member.arbiter.stake as int, spec_slash_bps(member, provider_wins, late))
}

/// Why the slash of one entry is refused, if it is. A slash of nothing is
/// never refused: the vault is not even looked at.
pub open spec fn spec_slash_error(
    member: PanelMember,
    expected: Option<ProgramAddress>,
    provider_wins: bool,
    late: bool,
) -> Option<TrustNetError> {
    let amount = spec_slash_amount(member, provider_wins, late);
    if amount == 0 {
        None
    } else if !spec_address_matches(expected, member.arbiter_vault.key) {
        Some(TrustNetError::Unauthorized)
    } else if member.arbiter_vault.lamports < amount {
        Some(TrustNetError::InsufficientFunds)
    } else {
        None
    }
}

/// The address derived for the vault of the entry at `i`.
pub open spec fn spec_expected_at(addresses: Seq<Option<ProgramAddress>>, i: int) -> Option<
    ProgramAddress,
> {
    if 0 <= i < addresses.len() {
        addresses[i]
    } else {
        None
    }
}

/// The first refusal among the slashes of the first `n` entries.
pub open spec fn spec_panel_slash_error(
    panel: Seq<PanelMember>,
    addresses: Seq<Option<ProgramAddress>>,
    provider_wins: bool,
    late: bool,
    n: int,
) -> Option<TrustNetError>
    decreases n,
{
    if n <= 0 {
        None
    } else {
        match spec_panel_slash_error(panel, addresses, provider_wins, late, n - 1) {
            Some(e) => Some(e),
            None => spec_slash_error(
                panel[n - 1],
                spec_expected_at(addresses, n - 1),
                provider_wins,
                late,
            ),
        }
    }
}

/// The transfers that slash the first `n` entries, in their order: from each
/// entry's vault to the treasury, where the entry forfeits anything.
pub open spec fn spec_slash_transfers(
    panel: Seq<PanelMember>,
    treasury: Pubkey,
    provider_wins: bool,
    late: bool,
    n: int,
) -> Seq<Transfer>
    decreases n,
{
    if n <= 0 {
        Seq::<Transfer>::empty()
    } else {
        let before = spec_slash_transfers(panel, treasury, provider_wins, late, n - 1);
        let amount = spec_slash_amount(panel[n - 1], provider_wins, late);
        if amount > 0 {
            before.push(
                Transfer {
                    from: panel[n - 1].arbiter_vault.key,
                    to: treasury,
                    lamports: amount as u64,
                },
            )
        } else {
            before
        }
    }
}

/// The weight that the entry adds to the winning side.
pub open spec fn spec_winning_weight_of(member: PanelMember, provider_wins: bool) -> int {
    if spec_is_winner(member, provider_wins) {
        member.arbiter.spec_weight() as int
    } else {
        0
    }
}

/// The weight of the winners among the first `n` entries.
pub open spec fn spec_winning_weight(panel: Seq<PanelMember>, provider_wins: bool, n: int) -> int
    decreases n,
{
    if n <= 0 {
        0
    } else {
        spec_winning_weight(panel, provider_wins, n - 1) + spec_winning_weight_of(
            panel[n - 1],
            provider_wins,
        )
    }
}

/// The part of `pool` that falls to `weight` out of `total`, rounded down;
/// nothing where there is no winning weight.
pub open spec fn spec_share(pool: int, weight: int, total: int) -> int {
    if total > 0 {
        pool * weight / total
    } else {
        0
    }
}

/// What the entry receives from the pool: its share where it voted with the
/// outcome, nothing where it did not.
pub open spec fn spec_reward(member: PanelMember, pool: int, total: int, provider_wins: bool) -> int {
    if spec_is_winner(member, provider_wins) {
        spec_share(pool, member.arbiter.spec_weight() as int, total)
    } else {
        0
    }
}

/// What the first `n` entries receive from the pool in all.
pub open spec fn spec_rewards_paid(
    panel: Seq<PanelMember>,
    pool: int,
    total: int,
    provider_wins: bool,
    n: int,
) -> int
    decreases n,
{
    if n <= 0 {
        0
    } else {
        spec_rewards_paid(panel, pool, total, provider_wins, n - 1) + spec_reward(
            panel[n - 1],
            pool,
            total,
            provider_wins,
        )
    }
}

/// The transfers that reward the first `n` entries, in their order: from the
/// pool to each entry's reward account, where the entry receives anything.
pub open spec fn spec_reward_transfers(
    panel: Seq<PanelMember>,
    pool_key: Pubkey,
    pool: int,
    total: int,
    provider_wins: bool,
    n: int,
) -> Seq<Transfer>
    decreases n,
{
    if n <= 0 {
        Seq::<Transfer>::empty()
    } else {
        let before = spec_reward_transfers(panel, pool_key, pool, total, provider_wins, n - 1);
        let reward = spec_reward(panel[n - 1], pool, total, provider_wins);
        if reward > 0 {
            before.push(
                Transfer { from: pool_key, to: panel[n - 1].reward_account, lamports: reward as u64 },
            )
        } else {
            before
        }
    }
}

/// The winning weight only grows along the panel, and never falls below zero.
pub proof fn lemma_winning_weight_monotonic(
    panel: Seq<PanelMember>,
    provider_wins: bool,
    i: int,
    j: int,
)
    requires
        i <= j,
    ensures
        0 <= spec_winning_weight(panel, provider_wins, i) <= spec_winning_weight(
            panel,
            provider_wins,
            j,
        ),
    decreases j - i, j,
{
    if i < j {
        lemma_winning_weight_monotonic(panel, provider_wins, i, j - 1);
    } else if i > 0 {
        lemma_winning_weight_monotonic(panel, provider_wins, i - 1, i - 1);
    }
}

/// A share never exceeds the part of the pool that its weight stands for:
/// rounding down leaves dust in the pool.
pub proof fn lemma_share_bound(pool: int, weight: int, total: int)
    requires
        0 <= pool,
        0 <= weight,
        0 < total,
    ensures
        0 <= spec_share(pool, weight, total),
        spec_share(pool, weight, total) * total <= pool * weight,
        weight <= total ==> spec_share(pool, weight, total) <= pool,
{
    let n = pool * weight;
    assert(0 <= n) by (nonlinear_arith)
        requires
            n == pool * weight,
            0 <= pool,
            0 <= weight,
    ;
    lemma_fundamental_div_mod(n, total);
    let q = n / total;
    assert(q * total == total * q) by (nonlinear_arith);
    assert(0 <= q) by (nonlinear_arith)
        requires
            n == total * q + n % total,
            0 <= n,
            0 <= n % total < total,
            0 < total,
    ;
    if weight <= total {
        assert(q <= pool) by (nonlinear_arith)
            requires
                n == total * q + n % total,
                n == pool * weight,
                0 <= n % total,
                0 <= pool,
                0 <= weight <= total,
                0 < total,
        ;
    }
}

/// What the first `n` entries receive, times the total weight, is at most the
/// pool times the winning weight among them.
pub proof fn lemma_rewards_partial(
    panel: Seq<PanelMember>,
    pool: int,
    total: int,
    provider_wins: bool,
    n: int,
)
    requires
        0 <= pool,
        0 < total,
    ensures
        0 <= spec_rewards_paid(panel, pool, total, provider_wins, n),
        spec_rewards_paid(panel, pool, total, provider_wins, n) * total <= pool
            * spec_winning_weight(panel, provider_wins, n),
    decreases n,
{
    if n <= 0 {
        assert(pool * 0 == 0) by (nonlinear_arith);
        assert(0 * total == 0) by (nonlinear_arith);
    } else {
        lemma_rewards_partial(panel, pool, total, provider_wins, n - 1);
        let w = spec_winning_weight_of(panel[n - 1], provider_wins);
        let r = spec_reward(panel[n - 1], pool, total, provider_wins);
        let paid = spec_rewards_paid(panel, pool, total, provider_wins, n - 1);
        let ww = spec_winning_weight(panel, provider_wins, n - 1);
        if spec_is_winner(panel[n - 1], provider_wins) {
            lemma_share_bound(pool, w, total);
        } else {
            assert(0 * total <= pool * 0) by (nonlinear_arith);
        }
        assert((paid + r) * total <= pool * (ww + w)) by (nonlinear_arith)
            requires
                paid * total <= pool * ww,
                r * total <= pool * w,
        ;
    }
}

/// The rewards that a panel receives never exceed the pool: what rounding
/// down leaves over stays in it.
pub proof fn lemma_rewards_bounded(panel: Seq<PanelMember>, pool: int, provider_wins: bool, n: int)
    requires
        0 <= pool,
        0 <= n <= panel.len(),
    ensures
        0 <= spec_rewards_paid(
            panel,
            pool,
            spec_winning_weight(panel, provider_wins, panel.len() as int),
            provider_wins,
            n,
        ) <= pool,
{
    let total = spec_winning_weight(panel, provider_wins, panel.len() as int);
    lemma_winning_weight_monotonic(panel, provider_wins, n, panel.len() as int);
    if total > 0 {
        lemma_rewards_partial(panel, pool, total, provider_wins, n);
        let paid = spec_rewards_paid(panel, pool, total, provider_wins, n);
        let ww = spec_winning_weight(panel, provider_wins, n);
        assert(paid <= pool) by (nonlinear_arith)
            requires
                paid * total <= pool * ww,
                0 <= ww <= total,
                0 < total,
                0 <= pool,
                0 <= paid,
        ;
    } else {
        lemma_no_rewards(panel, pool, total, provider_wins, n);
    }
}

/// With no winning weight nothing is paid.
pub proof fn lemma_no_rewards(
    panel: Seq<PanelMember>,
    pool: int,
    total: int,
    provider_wins: bool,
    n: int,
)
    requires
        total <= 0,
    ensures
        spec_rewards_paid(panel, pool, total, provider_wins, n) == 0,
    decreases n,
{
    if n > 0 {
        lemma_no_rewards(panel, pool, total, provider_wins, n - 1);
    }
}

/// Once an entry's slash is refused, so is that of every longer stretch of
/// the panel, for the same reason.
pub proof fn lemma_slash_error_stays(
    panel: Seq<PanelMember>,
    addresses: Seq<Option<ProgramAddress>>,
    provider_wins: bool,
    late: bool,
    i: int,
    n: int,
)
    requires
        0 < i <= n,
        spec_panel_slash_error(panel, addresses, provider_wins, late, i) is Some,
    ensures
        spec_panel_slash_error(panel, addresses, provider_wins, late, n) == spec_panel_slash_error(
            panel,
            addresses,
            provider_wins,
            late,
            i,
        ),
    decreases n - i,
{
    if i < n {
        lemma_slash_error_stays(panel, addresses, provider_wins, late, i, n - 1);
    }
}

/// What is paid only grows along the panel.
pub proof fn lemma_rewards_monotonic(
    panel: Seq<PanelMember>,
    pool: int,
    total: int,
    provider_wins: bool,
    i: int,
    j: int,
)
    requires
        0 <= pool,
        i <= j,
    ensures
        0 <= spec_rewards_paid(panel, pool, total, provider_wins, i) <= spec_rewards_paid(
            panel,
            pool,
            total,
            provider_wins,
            j,
        ),
    decreases j - i, j,
{
    if i < j {
        lemma_rewards_monotonic(panel, pool, total, provider_wins, i, j - 1);
        if total > 0 && spec_is_winner(panel[j - 1], provider_wins) {
            lemma_share_bound(pool, panel[j - 1].arbiter.spec_weight() as int, total);
        }
    } else if i > 0 {
        lemma_rewards_monotonic(panel, pool, total, provider_wins, i - 1, i - 1);
        if total > 0 && spec_is_winner(panel[i - 1], provider_wins) {
            lemma_share_bound(pool, panel[i - 1].arbiter.spec_weight() as int, total);
        }
    }
}

/// What `slash_arbiter` returns and leaves.
pub open spec fn spec_slash_arbiter(
    arbiter: Arbiter,
    vault: Vault,
    treasury: Pubkey,
    expected: Option<ProgramAddress>,
    bps: u64,
) -> Result<(Vault, Option<Transfer>), TrustNetError> {
    let amount = spec_bps_of(arbiter.stake as int, bps as int);
    if amount == 0 {
        Ok((vault, None))
    } else if !spec_address_matches(expected, vault.key) {
        Err(TrustNetError::Unauthorized)
    } else if vault.lamports < amount {
        Err(TrustNetError::InsufficientFunds)
    } else {
        Ok(
            (
                Vault { key: vault.key, lamports: (vault.lamports - amount) as u64 },
                Some(Transfer { from: vault.key, to: treasury, lamports: amount as u64 }),
            ),
        )
    }
}

/// Slashes `bps` basis points of the arbiter's recorded stake from its vault
/// to the treasury, given the address `expected` derived for the vault. A
/// slash of nothing does nothing. The recorded stake stays as it is: after a
/// slash the vault holds less than the record says.
pub fn slash_arbiter(
    arbiter: &Arbiter,
    vault: &mut Vault,
    treasury: &Pubkey,
    expected: &Option<ProgramAddress>,
    bps: u64,
) -> (slashed: Result<Option<Transfer>, TrustNetError>)
    requires
        spec_bps_of(arbiter.stake as int, bps as int) <= u64::MAX,
    ensures
        match slashed {
            Ok(t) => spec_slash_arbiter(*arbiter, *old(vault), *treasury, *expected, bps) == Ok::<
                (Vault, Option<Transfer>),
                TrustNetError,
            >((*final(vault), t)),
            Err(e) => spec_slash_arbiter(*arbiter, *old(vault), *treasury, *expected, bps) == Err::<
                (Vault, Option<Transfer>),
                TrustNetError,
            >(e) && *final(vault) == *old(vault),
        },
{
    let amount: u64 = bps_of(arbiter.stake, bps);
    if amount == 0 {
        return Ok(None);
    }
    match transfer_from_vault(vault, treasury, expected, amount) {
        Ok(t) => Ok(Some(t)),
        Err(e) => Err(e),
    }
}

/// The basis points that an entry forfeits.
pub fn slash_bps(member: &PanelMember, provider_wins: bool, late: bool) -> (bps: u64)
    ensures
        bps == spec_slash_bps(*member, provider_wins, late),
        bps <= 10_000,
{
    if !member.vote.revealed {
        if late {
            NO_REVEAL_SLASH_BPS
        } else {
            0
        }
    } else if member.vote.voted_provider() != provider_wins {
        WRONG_VOTE_SLASH_BPS
    } else {
        0
    }
}

/// Whether the entry voted with the outcome.
pub fn is_winner(member: &PanelMember, provider_wins: bool) -> (winner: bool)
    ensures
        winner == spec_is_winner(*member, provider_wins),
{
    member.vote.revealed && member.vote.voted_provider() == provider_wins
}

/// The address derived for the vault of the entry at `i`.
pub fn expected_at(addresses: &Vec<Option<ProgramAddress>>, i: usize) -> (expected: Option<
    ProgramAddress,
>)
    ensures
        expected == spec_expected_at(addresses@, i as int),
{
    if i < addresses.len() {
        addresses[i]
    } else {
        None
    }
}

/// What the first pass over a panel gives: the transfers that slash it, what
/// each entry's vault holds afterwards, and the winning weight.
pub struct Slashed {
    pub transfers: Vec<Transfer>,
    pub balances: Vec<u64>,
    pub winning_weight: u128,
}

/// The first pass over the panel: classifies each entry, adds up the weight
/// of the winners, and slashes those who did not reveal in time or voted
/// against the outcome. The panel itself is left as it is.
pub fn slash_panel(
    panel: &Vec<PanelMember>,
    addresses: &Vec<Option<ProgramAddress>>,
    treasury: &Pubkey,
    provider_wins: bool,
    late: bool,
) -> (slashed: Result<Slashed, TrustNetError>)
    ensures
        match slashed {
            Ok(s) => {
                &&& spec_panel_slash_error(
                    panel@,
                    addresses@,
                    provider_wins,
                    late,
                    panel@.len() as int,
                ) is None
                &&& s.transfers@ == spec_slash_transfers(
                    panel@,
                    *treasury,
                    provider_wins,
                    late,
                    panel@.len() as int,
                )
                &&& s.winning_weight == spec_winning_weight(
                    panel@,
                    provider_wins,
                    panel@.len() as int,
                )
                &&& s.balances@.len() == panel@.len()
                &&& forall|j: int|
                    0 <= j < panel@.len() ==> #[trigger] s.balances@[j] == panel@[j].arbiter_vault.lamports
                        - spec_slash_amount(panel@[j], provider_wins, late)
            },
            Err(e) => spec_panel_slash_error(
                panel@,
                addresses@,
                provider_wins,
                late,
                panel@.len() as int,
            ) == Some(e),
        },
{
    let n: usize = panel.len();
    let mut transfers: Vec<Transfer> = Vec::new();
    let mut balances: Vec<u64> = Vec::new();
    let mut total: u128 = 0;
    let mut i: usize = 0;
    while i < n
        invariant
            i <= n,
            n == panel@.len(),
            spec_panel_slash_error(panel@, addresses@, provider_wins, late, i as int) is None,
            transfers@ == spec_slash_transfers(panel@, *treasury, provider_wins, late, i as int),
            total == spec_winning_weight(panel@, provider_wins, i as int),
            total <= i * 0xffff_ffff,
            balances@.len() == i,
            forall|j: int|
                0 <= j < i ==> #[trigger] balances@[j] == panel@[j].arbiter_vault.lamports
                    - spec_slash_amount(panel@[j], provider_wins, late),
        decreases n - i,
    {
        let member = &panel[i];
        let weight: u64 = integer_sqrt(member.arbiter.stake);
        if is_winner(member, provider_wins) {
            total = total + weight as u128;
        }
        let bps: u64 = slash_bps(member, provider_wins, late);
        proof {
            lemma_bps_of_bound(member.arbiter.stake as int, bps as int);
        }
        let expected = expected_at(addresses, i);
        let mut vault = member.arbiter_vault;
        match slash_arbiter(&member.arbiter, &mut vault, treasury, &expected, bps) {
            Ok(Some(t)) => {
                transfers.push(t);
            },
            Ok(None) => {},
            Err(e) => {
                proof {
                    assert(spec_panel_slash_error(
                        panel@,
                        addresses@,
                        provider_wins,
                        late,
                        i as int + 1,
                    ) == Some(e));
                    lemma_slash_error_stays(
                        panel@,
                        addresses@,
                        provider_wins,
                        late,
                        i as int + 1,
                        n as int,
                    );
                }
                return Err(e);
            },
        }
        balances.push(vault.lamports);
        i = i + 1;
    }
    Ok(Slashed { transfers, balances, winning_weight: total })
}

/// The second pass over the panel: pays each winner its share of what the
/// fee pool held at the start, out of `pool`, and adds the transfers to
/// `transfers`. A pool that is not at its derived address `expected` is
/// refused with `Unauthorized` as soon as anything is to be paid; then the
/// pool is left as it was. The pool never runs short: the shares add up to no
/// more than it held. Gives what was paid in all.
fn reward_panel(
    panel: &Vec<PanelMember>,
    pool: &mut Vault,
    expected: &Option<ProgramAddress>,
    total: u128,
    provider_wins: bool,
    transfers: &mut Vec<Transfer>,
) -> (paid: Result<u64, TrustNetError>)
    requires
        total == spec_winning_weight(panel@, provider_wins, panel@.len() as int),
    ensures
        match paid {
            Ok(p) => {
                &&& p == spec_rewards_paid(
                    panel@,
                    old(pool).lamports as int,
                    total as int,
                    provider_wins,
                    panel@.len() as int,
                )
                &&& p <= old(pool).lamports
                &&& p > 0 ==> spec_address_matches(*expected, old(pool).key)
                &&& *final(pool) == (Vault {
                    key: old(pool).key,
                    lamports: (old(pool).lamports - p) as u64,
                })
                &&& final(transfers)@ == old(transfers)@ + spec_reward_transfers(
                    panel@,
                    old(pool).key,
                    old(pool).lamports as int,
                    total as int,
                    provider_wins,
                    panel@.len() as int,
                )
            },
            Err(e) => {
                &&& e == TrustNetError::Unauthorized
                &&& !spec_address_matches(*expected, old(pool).key)
                &&& spec_rewards_paid(
                    panel@,
                    old(pool).lamports as int,
                    total as int,
                    provider_wins,
                    panel@.len() as int,
                ) > 0
                &&& *final(pool) == *old(pool)
            },
        },
{
    let n: usize = panel.len();
    let held: u64 = pool.lamports;
    let mut vault: Vault = *pool;
    let mut paid: u64 = 0;
    let mut k: usize = 0;
    while k < n
        invariant
            k <= n,
            n == panel@.len(),
            held == old(pool).lamports,
            *pool == *old(pool),
            total == spec_winning_weight(panel@, provider_wins, panel@.len() as int),
            paid == spec_rewards_paid(panel@, held as int, total as int, provider_wins, k as int),
            paid <= held,
            paid > 0 ==> spec_address_matches(*expected, old(pool).key),
            vault.key == old(pool).key,
            vault.lamports == held - paid,
            transfers@ == old(transfers)@ + spec_reward_transfers(
                panel@,
                old(pool).key,
                held as int,
                total as int,
                provider_wins,
                k as int,
            ),
        decreases n - k,
    {
        let member = &panel[k];
        proof {
            lemma_rewards_bounded(panel@, held as int, provider_wins, k as int + 1);
        }
        if is_winner(member, provider_wins) && total > 0 {
            let weight: u64 = integer_sqrt(member.arbiter.stake);
            proof {
                lemma_winning_weight_monotonic(panel@, provider_wins, k as int + 1, n as int);
                lemma_winning_weight_monotonic(panel@, provider_wins, 0, k as int);
                lemma_share_bound(held as int, weight as int, total as int);
                assert(0 <= held * weight <= 0xffff_ffff_ffff_ffff * 0xffff_ffff) by (nonlinear_arith)
                    requires
                        0 <= held <= 0xffff_ffff_ffff_ffff,
                        0 <= weight <= 0xffff_ffff,
                ;
            }
            let share: u64 = (held as u128 * weight as u128 / total) as u64;
            if share > 0 {
                match transfer_from_vault(&mut vault, &member.reward_account, expected, share) {
                    Ok(t) => {
                        transfers.push(t);
                        paid = paid + share;
                    },
                    Err(e) => {
                        proof {
                            lemma_rewards_monotonic(
                                panel@,
                                held as int,
                                total as int,
                                provider_wins,
                                k as int + 1,
                                n as int,
                            );
                        }
                        return Err(e);
                    },
                }
            }
        }
        k = k + 1;
    }
    *pool = vault;
    Ok(paid)
}

/// Writes what each entry's vault holds after the slashes into the panel.
fn write_balances(panel: &mut Vec<PanelMember>, balances: &Vec<u64>)
    requires
        balances@.len() == old(panel)@.len(),
    ensures
        final(panel)@.len() == old(panel)@.len(),
        forall|j: int|
            0 <= j < old(panel)@.len() ==> #[trigger] final(panel)@[j] == (PanelMember {
                arbiter_vault: Vault {
                    key: old(panel)@[j].arbiter_vault.key,
                    lamports: balances@[j],
                },
                ..old(panel)@[j]
            }),
{
    let n: usize = panel.len();
    let mut j: usize = 0;
    while j < n
        invariant
            j <= n,
            n == panel@.len(),
            panel@.len() == old(panel)@.len(),
            balances@.len() == n,
            forall|m: int|
                0 <= m < j ==> #[trigger] panel@[m] == (PanelMember {
                    arbiter_vault: Vault {
                        key: old(panel)@[m].arbiter_vault.key,
                        lamports: balances@[m],
                    },
                    ..old(panel)@[m]
                }),
            forall|m: int| j <= m < n ==> #[trigger] panel@[m] == old(panel)@[m],
        decreases n - j,
    {
        panel[j].arbiter_vault.lamports = balances[j];
        j = j + 1;
    }
}

/// Appends the transfers of `src` to `dst`.
pub fn append_transfers(dst: &mut Vec<Transfer>, src: &Vec<Transfer>)
    ensures
        final(dst)@ == old(dst)@ + src@,
{
    let mut i: usize = 0;
    while i < src.len()
        invariant
            i <= src@.len(),
            dst@ == old(dst)@ + src@.take(i as int),
        decreases src@.len() - i,
    {
        dst.push(src[i]);
        assert(src@.take(i as int + 1) == src@.take(i as int).push(src@[i as int]));
        i = i + 1;
    }
    assert(src@.take(i as int) == src@);
}

/// Why a resolution at the time `now` is refused, if it is, given the
/// addresses derived for the vaults: the first of these that holds. The job
/// must be disputed: this is what stops a second resolution, with
/// `InvalidStatus`. The dispute must still be voting; every slash must find
/// its vault at the derived address and holding enough; the pool, if anything
/// is paid from it, must be at its derived address; and the job's vault must
/// be at its derived address and hold what the job locks.
pub open spec fn spec_resolve_error(ctx: ResolveDispute, addresses: VaultAddresses, now: i64)
    -> Option<TrustNetError> {
    let wins = spec_resolution(ctx.dispute, now);
    let late = now > ctx.dispute.reveal_deadline;
    let len = ctx.panel@.len() as int;
    if ctx.job.status != JobStatus::Disputed {
        Some(TrustNetError::InvalidStatus)
    } else if !ctx.dispute.spec_is_voting() {
        Some(TrustNetError::InvalidDisputeState)
    } else if let Some(e) = spec_panel_slash_error(
        ctx.panel@,
        addresses.arbiter_vaults@,
        wins,
        late,
        len,
    ) {
        Some(e)
    } else if spec_pool_paid(ctx, now) > 0 && !spec_address_matches(
        addresses.dispute_vault,
        ctx.dispute_vault.key,
    ) {
        Some(TrustNetError::Unauthorized)
    } else {
        spec_vault_error(ctx.job, ctx.job_vault, addresses.job_vault)
    }
}

/// Whether the provider wins the dispute when it is resolved at `now`: a
/// function of the two weights, the time and the reveal deadline alone.
pub open spec fn spec_resolution(dispute: Dispute, now: i64) -> bool {
    spec_provider_wins(
        dispute.client_weight as int,
        dispute.provider_weight as int,
        now as int,
        dispute.reveal_deadline as int,
    )
}

/// The weight of the panel's winners when the dispute is resolved at `now`.
pub open spec fn spec_pool_weight(ctx: ResolveDispute, now: i64) -> int {
    spec_winning_weight(ctx.panel@, spec_resolution(ctx.dispute, now), ctx.panel@.len() as int)
}

/// What the panel is paid from the pool in all when the dispute is resolved
/// at `now`.
pub open spec fn spec_pool_paid(ctx: ResolveDispute, now: i64) -> int {
    spec_rewards_paid(
        ctx.panel@,
        ctx.dispute_vault.lamports as int,
        spec_pool_weight(ctx, now),
        spec_resolution(ctx.dispute, now),
        ctx.panel@.len() as int,
    )
}

/// The transfers of a resolution at `now`, in their order: the slashes, the
/// rewards, then the release to the provider where the provider wins and the
/// refund to the client where it does not.
pub open spec fn spec_resolve_transfers(ctx: ResolveDispute, now: i64) -> Seq<Transfer> {
    let wins = spec_resolution(ctx.dispute, now);
    let late = now > ctx.dispute.reveal_deadline;
    let len = ctx.panel@.len() as int;
    spec_slash_transfers(ctx.panel@, ctx.treasury, wins, late, len) + spec_reward_transfers(
        ctx.panel@,
        ctx.dispute_vault.key,
        ctx.dispute_vault.lamports as int,
        spec_pool_weight(ctx, now),
        wins,
        len,
    ) + if wins {
        spec_release_transfers(ctx.job, ctx.job_vault.key, ctx.treasury)
    } else {
        spec_refund_transfers(ctx.job, ctx.job_vault.key)
    }
}

/// `after` is the state that a resolution at `now` leaves from `before`: the
/// dispute resolved with its outcome recorded, the job resolved, the job's
/// vault less what the job locked, the pool less what was paid from it, each
/// entry's vault less what the entry forfeited, and all else as it was. The
/// stake that an arbiter's record shows is not touched.
pub open spec fn spec_resolved(before: ResolveDispute, after: ResolveDispute, now: i64) -> bool {
    let wins = spec_resolution(before.dispute, now);
    let late = now > before.dispute.reveal_deadline;
    &&& after.dispute == (Dispute {
        status: DisputeStatus::Resolved,
        resolved_in_favor_of_client: Some(!wins),
        ..before.dispute
    })
    &&& after.job == (JobEscrow { status: JobStatus::Resolved, ..before.job })
    &&& after.job_vault == spec_drained(before.job, before.job_vault)
    &&& after.dispute_vault == (Vault {
        key: before.dispute_vault.key,
        lamports: (before.dispute_vault.lamports - spec_pool_paid(before, now)) as u64,
    })
    &&& after.panel@.len() == before.panel@.len()
    &&& forall|j: int|
        0 <= j < before.panel@.len() ==> #[trigger] after.panel@[j] == (PanelMember {
            arbiter_vault: Vault {
                key: before.panel@[j].arbiter_vault.key,
                lamports: (before.panel@[j].arbiter_vault.lamports - spec_slash_amount(
                    before.panel@[j],
                    wins,
                    late,
                )) as u64,
            },
            ..before.panel@[j]
        })
    &&& after.dispute_key == before.dispute_key
    &&& after.job_key == before.job_key
    &&& after.treasury == before.treasury
    &&& after.program_id == before.program_id
}

/// What a resolution returns and leaves, given the derived addresses.
pub open spec fn spec_resolve_outcome(
    before: ResolveDispute,
    after: ResolveDispute,
    moved: Result<Vec<Transfer>, TrustNetError>,
    addresses: VaultAddresses,
    now: i64,
) -> bool {
    match moved {
        Ok(ts) => {
            &&& spec_resolve_error(before, addresses, now) is None
            &&& ts@ == spec_resolve_transfers(before, now)
            &&& spec_resolved(before, after, now)
        },
        Err(e) => spec_resolve_error(before, addresses, now) == Some(e) && after == before,
    }
}

/// Resolves a dispute at the time `now`, given the addresses derived for the
/// vaults. The outcome follows from the weights revealed so far; the panel is
/// slashed and rewarded; then the job is settled for the side that won. The
/// dispute may be resolved while votes are still being committed or revealed.
///
/// The settlement pays what the job locks, the amount and the stake, out of
/// the job's vault. A vault from which a dispute fee was taken holds less than
/// that, and the resolution is then refused with `InsufficientFunds`.
pub fn resolve(ctx: &mut ResolveDispute, addresses: &VaultAddresses, now: i64) -> (moved: Result<
    Vec<Transfer>,
    TrustNetError,
>)
    ensures
        spec_resolve_outcome(*old(ctx), *final(ctx), moved, *addresses, now),
        moved is Ok ==> spec_pool_paid(*old(ctx), now) <= old(ctx).dispute_vault.lamports,
        moved is Ok && spec_vault_balanced(old(ctx).job, old(ctx).job_vault)
            ==> spec_vault_balanced(final(ctx).job, final(ctx).job_vault),
{
    if ctx.job.status != JobStatus::Disputed {
        return Err(TrustNetError::InvalidStatus);
    }
    if !ctx.dispute.is_voting() {
        return Err(TrustNetError::InvalidDisputeState);
    }
    let wins: bool = provider_wins(
        ctx.dispute.client_weight,
        ctx.dispute.provider_weight,
        now,
        ctx.dispute.reveal_deadline,
    );
    let late: bool = now > ctx.dispute.reveal_deadline;
    let slashed = match slash_panel(
        &ctx.panel,
        &addresses.arbiter_vaults,
        &ctx.treasury,
        wins,
        late,
    ) {
        Ok(s) => s,
        Err(e) => {
            return Err(e);
        },
    };
    let mut transfers: Vec<Transfer> = slashed.transfers;
    let mut pool: Vault = ctx.dispute_vault;
    match reward_panel(
        &ctx.panel,
        &mut pool,
        &addresses.dispute_vault,
        slashed.winning_weight,
        wins,
        &mut transfers,
    ) {
        Ok(_) => {},
        Err(e) => {
            return Err(e);
        },
    }
    let mut vault = ctx.job_vault;
    let payout = if wins {
        release_checked(&mut vault, &ctx.job, &ctx.treasury, &addresses.job_vault)
    } else {
        refund_checked(&mut vault, &ctx.job, &addresses.job_vault)
    };
    match payout {
        Ok(ts) => {
            append_transfers(&mut transfers, &ts);
        },
        Err(e) => {
            return Err(e);
        },
    }
    ctx.dispute.resolved_in_favor_of_client = Some(!wins);
    ctx.dispute.status = DisputeStatus::Resolved;
    ctx.job.status = JobStatus::Resolved;
    ctx.job_vault = vault;
    ctx.dispute_vault = pool;
    write_balances(&mut ctx.panel, &slashed.balances);
    Ok(transfers)
}

/// The addresses are those that the ledger derives for the vaults of `ctx`:
/// the job's vault from the job's address, the pool from the dispute's
/// address, and the vault of each entry of the panel from the authority of
/// its arbiter.
pub open spec fn spec_addresses_derived(ctx: ResolveDispute, addresses: VaultAddresses) -> bool {
    &&& is_program_address(
        addresses.job_vault,
        spec_owned_seeds(JOB_VAULT_SEED@, ctx.job_key@),
        ctx.program_id@,
    )
    &&& is_program_address(
        addresses.dispute_vault,
        spec_owned_seeds(DISPUTE_VAULT_SEED@, ctx.dispute_key@),
        ctx.program_id@,
    )
    &&& addresses.arbiter_vaults@.len() == ctx.panel@.len()
    &&& forall|i: int|
        0 <= i < ctx.panel@.len() ==> is_program_address(
            #[trigger] addresses.arbiter_vaults@[i],
            spec_owned_seeds(ARBITER_VAULT_SEED@, ctx.panel@[i].arbiter.authority@),
            ctx.program_id@,
        )
}

/// Derives the addresses of the vaults that a resolution takes from.
pub fn derive_addresses(ctx: &ResolveDispute) -> (addresses: VaultAddresses)
    ensures
        spec_addresses_derived(*ctx, addresses),
{
    let job_vault = find_owned_address(JOB_VAULT_SEED.as_slice(), &ctx.job_key, &ctx.program_id);
    let dispute_vault = find_owned_address(
        DISPUTE_VAULT_SEED.as_slice(),
        &ctx.dispute_key,
        &ctx.program_id,
    );
    let mut arbiter_vaults: Vec<Option<ProgramAddress>> = Vec::new();
    let mut i: usize = 0;
    while i < ctx.panel.len()
        invariant
            i <= ctx.panel@.len(),
            arbiter_vaults@.len() == i,
            forall|j: int|
                0 <= j < i ==> is_program_address(
                    #[trigger] arbiter_vaults@[j],
                    spec_owned_seeds(ARBITER_VAULT_SEED@, ctx.panel@[j].arbiter.authority@),
                    ctx.program_id@,
                ),
        decreases ctx.panel@.len() - i,
    {
        let found = find_owned_address(
            ARBITER_VAULT_SEED.as_slice(),
            &ctx.panel[i].arbiter.authority,
            &ctx.program_id,
        );
        arbiter_vaults.push(found);
        i = i + 1;
    }
    VaultAddresses { job_vault, dispute_vault, arbiter_vaults }
}

/// Resolves a dispute at the time of `clock`: derives the addresses of the
/// vaults, then resolves against them.
pub fn handler(ctx: &mut ResolveDispute, clock: &Clock) -> (moved: Result<
    Vec<Transfer>,
    TrustNetError,
>)
    ensures
        exists|addresses: VaultAddresses|
            {
                &&& spec_addresses_derived(*old(ctx), addresses)
                &&& #[trigger] spec_resolve_outcome(
                    *old(ctx),
                    *final(ctx),
                    moved,
                    addresses,
                    clock.unix_timestamp,
                )
            },
        moved is Ok ==> spec_pool_paid(*old(ctx), clock.unix_timestamp) <= old(
            ctx,
        ).dispute_vault.lamports,
        moved is Ok && spec_vault_balanced(old(ctx).job, old(ctx).job_vault)
            ==> spec_vault_balanced(final(ctx).job, final(ctx).job_vault),
{
    let addresses = derive_addresses(ctx);
    resolve(ctx, &addresses, now_ts(clock))
}

} // verus!
