use vstd::prelude::*;
use vstd::arithmetic::div_mod::lemma_fundamental_div_mod;
use vstd::arithmetic::div_mod::lemma_div_pos_is_pos;

verus! {

/// `root` is the integer square root of `value`: the greatest number whose
/// square does not exceed it.
pub open spec fn is_integer_sqrt(value: int, root: int) -> bool {
    0 <= root && root * root <= value < (root + 1) * (root + 1)
}

/// The integer square root of `value`.
pub open spec fn spec_integer_sqrt(value: nat) -> nat {
    choose|root: nat| is_integer_sqrt(value as int, root as int)
}

/// A number has at most one integer square root.
pub proof fn lemma_integer_sqrt_unique(value: int, a: int, b: int)
    requires
        is_integer_sqrt(value, a),
        is_integer_sqrt(value, b),
    ensures
        a == b,
{
    if a < b {
        assert((a + 1) * (a + 1) <= b * b) by (nonlinear_arith)
            requires
                0 <= a,
                a + 1 <= b,
        ;
    } else if b < a {
        assert((b + 1) * (b + 1) <= a * a) by (nonlinear_arith)
            requires
                0 <= b,
                b + 1 <= a,
        ;
    }
}

/// Whatever satisfies the defining inequality is the integer square root.
pub proof fn lemma_integer_sqrt_is(value: nat, root: nat)
    requires
        is_integer_sqrt(value as int, root as int),
    ensures
        spec_integer_sqrt(value) == root,
{
    let chosen = spec_integer_sqrt(value);
    assert(is_integer_sqrt(value as int, chosen as int));
    lemma_integer_sqrt_unique(value as int, chosen as int, root as int);
}

/// The root of a 64-bit number fits in 32 bits.
pub proof fn lemma_integer_sqrt_bound(value: nat, root: nat)
    requires
        is_integer_sqrt(value as int, root as int),
        value <= u64::MAX,
    ensures
        root <= u32::MAX,
{
    if root > u32::MAX {
        assert(root * root >= 0x1_0000_0000 * 0x1_0000_0000) by (nonlinear_arith)
            requires
                root >= 0x1_0000_0000,
        ;
    }
}

/// One step of Newton's iteration from any positive estimate lands at or
/// above the root: the square of its successor exceeds `value`.
proof fn lemma_newton_step(value: int, x: int, y: int)
    requires
        0 <= value,
        0 < x,
        y == (x + value / x) / 2,
    ensures
        (y + 1) * (y + 1) > value,
        y >= x ==> x * x <= value,
{
    let q = value / x;
    lemma_fundamental_div_mod(value, x);
    assert(0 <= value % x < x);
    assert(value == x * q + value % x);
    assert(value < x * (q + 1)) by (nonlinear_arith)
        requires
            value == x * q + value % x,
            value % x < x,
    ;
    assert(2 * (y + 1) >= x + q + 1);
    assert(0 <= q) by {
        if value >= x {
            lemma_div_pos_is_pos(value, x);
        } else {
            vstd::arithmetic::div_mod::lemma_basic_div(value, x);
        }
    }
    assert(4 * ((y + 1) * (y + 1)) >= 4 * (x * (q + 1))) by (nonlinear_arith)
        requires
            2 * (y + 1) >= x + q + 1,
            0 < x,
            0 <= q,
    ;
    if y >= x {
        assert(q >= x);
        assert(x * x <= x * q) by (nonlinear_arith)
            requires
                0 < x,
                x <= q,
        ;
    }
}

/// Integer square root by Newton's iteration, run until it no longer descends.
pub fn integer_sqrt(value: u64) -> (root: u64)
    ensures
        is_integer_sqrt(value as int, root as int),
        root == spec_integer_sqrt(value as nat),
        root <= u32::MAX,
{
    let mut x: u64 = value;
    let mut y: u64 = x / 2 + x % 2;
    proof {
        assert((x + 1) * (x + 1) > value) by (nonlinear_arith)
            requires
                x == value,
                x >= 0,
        ;
        if value > 0 {
            assert(value as int / value as int == 1) by (nonlinear_arith)
                requires
                    value > 0,
            ;
        }
    }
    while y < x
        invariant
            (x + 1) * (x + 1) > value,
            x > 0 ==> y == (x + value / x) / 2,
            x == 0 ==> value == 0 && y == 0,
            x <= value,
        decreases x,
    {
        proof {
            lemma_newton_step(value as int, x as int, y as int);
            if y == 0 {
                assert((y + 1) * (y + 1) == 1) by (nonlinear_arith)
                    requires
                        y == 0,
                ;
            }
        }
        x = y;
        let q: u64 = value / x;
        let sum: u128 = x as u128 + q as u128;
        y = (sum / 2) as u64;
    }
    proof {
        if x > 0 {
            lemma_newton_step(value as int, x as int, y as int);
        }
        lemma_integer_sqrt_is(value as nat, x as nat);
        lemma_integer_sqrt_bound(value as nat, x as nat);
    }
    x
}

/// The average of all ratings after one more, in hundredths, rounded down:
/// the old average counts `current_count` times, the new score once.
pub open spec fn spec_rating_average(current_avg: int, current_count: int, new_score: int) -> int {
    (current_avg * current_count + new_score * 100) / (current_count + 1)
}

/// An average of values that fit in 16 bits fits in 16 bits.
pub proof fn lemma_rating_average_bound(current_avg: int, current_count: int, new_score: int)
    requires
        0 <= current_avg <= u16::MAX,
        0 <= current_count,
        0 <= new_score <= u8::MAX,
    ensures
        0 <= spec_rating_average(current_avg, current_count, new_score) <= u16::MAX,
        current_avg <= 500 && new_score <= 5 ==> spec_rating_average(
            current_avg,
            current_count,
            new_score,
        ) <= 500,
{
    let n = current_avg * current_count + new_score * 100;
    let d = current_count + 1;
    assert(0 <= n <= 65535 * d) by (nonlinear_arith)
        requires
            n == current_avg * current_count + new_score * 100,
            d == current_count + 1,
            0 <= current_avg <= 65535,
            0 <= current_count,
            0 <= new_score <= 255,
    ;
    lemma_fundamental_div_mod(n, d);
    assert(0 <= n / d <= 65535) by (nonlinear_arith)
        requires
            n == d * (n / d) + n % d,
            0 <= n % d < d,
            0 <= n <= 65535 * d,
            d > 0,
    ;
    if current_avg <= 500 && new_score <= 5 {
        assert(n <= 500 * d) by (nonlinear_arith)
            requires
                n == current_avg * current_count + new_score * 100,
                d == current_count + 1,
                0 <= current_avg <= 500,
                0 <= current_count,
                0 <= new_score <= 5,
        ;
        assert(n / d <= 500) by (nonlinear_arith)
            requires
                n == d * (n / d) + n % d,
                0 <= n % d < d,
                n <= 500 * d,
                d > 0,
        ;
    }
}

/// The rating average after a new score is added.
pub fn compute_rating_average(current_avg: u16, current_count: u64, new_score: u8) -> (avg: u16)
    ensures
        avg == spec_rating_average(current_avg as int, current_count as int, new_score as int),
{
    assert(current_avg * current_count <= 0xffff * 0xffff_ffff_ffff_ffff) by (nonlinear_arith)
        requires
            0 <= current_avg <= 0xffff,
            0 <= current_count <= 0xffff_ffff_ffff_ffff,
    ;
    let total: u128 = current_avg as u128 * current_count as u128;
    let new_total: u128 = total + (new_score as u128 * 100);
    let new_count: u128 = current_count as u128 + 1;
    proof {
        lemma_rating_average_bound(current_avg as int, current_count as int, new_score as int);
    }
    (new_total / new_count) as u16
}

/// `value` held between `min` and `max`.
pub open spec fn spec_clamp(value: int, min: int, max: int) -> int {
    if value < min {
        min
    } else if value > max {
        max
    } else {
        value
    }
}

/// `value` held between `min` and `max`, then cut down to its low eight bits.
/// Where the bounds lie within 0 and 255 nothing is cut.
pub fn clamp_u8(value: i64, min: i64, max: i64) -> (clamped: u8)
    requires
        min <= max,
    ensures
        clamped == spec_clamp(value as int, min as int, max as int) as i64 as u8,
        0 <= min && max <= u8::MAX ==> clamped == spec_clamp(value as int, min as int, max as int),
{
    let held: i64 = if value < min {
        min
    } else if value > max {
        max
    } else {
        value
    };
    #[verifier::truncate]
    (held as u8)
}

/// The percentage of a score that is kept after `days_inactive` days without
/// activity.
pub open spec fn spec_forgetting_multiplier(days_inactive: int) -> int {
    if days_inactive <= 30 {
        100
    } else if days_inactive <= 90 {
        95
    } else if days_inactive <= 180 {
        90
    } else if days_inactive <= 360 {
        80
    } else {
        70
    }
}

/// The percentage of a score that is kept after a time without activity.
pub fn forgetting_multiplier(days_inactive: i64) -> (percent: u16)
    ensures
        percent == spec_forgetting_multiplier(days_inactive as int),
{
    if days_inactive <= 30 {
        100
    } else if days_inactive <= 90 {
        95
    } else if days_inactive <= 180 {
        90
    } else if days_inactive <= 360 {
        80
    } else {
        70
    }
}

/// Lamports in one whole unit of stake.
pub const LAMPORTS_PER_UNIT: u64 = 1_000_000_000;

/// The share of finished jobs that were completed, in percent, rounded down;
/// zero where no job was finished.
pub open spec fn spec_completion_rate(completed: int, failed: int) -> int {
    if completed + failed == 0 {
        0
    } else {
        completed * 100 / (completed + failed)
    }
}

/// Points added for the number of completed jobs.
pub open spec fn spec_volume_bonus(completed: int) -> int {
    if completed >= 50 {
        15
    } else if completed >= 20 {
        10
    } else if completed >= 5 {
        5
    } else {
        0
    }
}

/// Points added for the stake, counted in whole units.
pub open spec fn spec_stake_bonus(stake_lamports: int) -> int {
    let units = stake_lamports / 1_000_000_000;
    if units >= 50 {
        10
    } else if units >= 10 {
        5
    } else if units >= 1 {
        2
    } else {
        0
    }
}

/// The score before the forgetting multiplier is applied.
pub open spec fn spec_reputation_base(
    completed: int,
    failed: int,
    disputes_won: int,
    disputes_lost: int,
    stake_lamports: int,
) -> int {
    spec_completion_rate(completed, failed) + disputes_won * 2 - disputes_lost * 5
        + spec_volume_bonus(completed) + spec_stake_bonus(stake_lamports)
}

/// The reputation score of an agent, between 0 and 100.
pub open spec fn spec_reputation_score(
    completed: int,
    failed: int,
    disputes_won: int,
    disputes_lost: int,
    stake_lamports: int,
    days_inactive: int,
) -> int {
    let base = spec_reputation_base(completed, failed, disputes_won, disputes_lost, stake_lamports);
    let adjusted = base * spec_forgetting_multiplier(days_inactive) / 100;
    spec_clamp(adjusted, 0, 100)
}

/// The completion rate lies between 0 and 100.
proof fn lemma_completion_rate_bound(completed: int, failed: int)
    requires
        0 <= completed,
        0 <= failed,
    ensures
        0 <= spec_completion_rate(completed, failed) <= 100,
{
    let d = completed + failed;
    if d != 0 {
        let n = completed * 100;
        lemma_fundamental_div_mod(n, d);
        assert(0 <= n / d <= 100) by (nonlinear_arith)
            requires
                n == d * (n / d) + n % d,
                0 <= n % d < d,
                0 <= n <= 100 * d,
                d > 0,
        ;
    }
}

/// A base that is not positive gives a score of zero.
proof fn lemma_nonpositive_base(base: int, multiplier: int)
    requires
        base <= 0,
        0 < multiplier,
    ensures
        spec_clamp(base * multiplier / 100, 0, 100) == 0,
{
    let n = base * multiplier;
    assert(n <= 0) by (nonlinear_arith)
        requires
            n == base * multiplier,
            base <= 0,
            0 < multiplier,
    ;
    lemma_fundamental_div_mod(n, 100);
    assert(n / 100 <= 0);
}

/// The reputation score of an agent, derived from its record on demand.
pub fn compute_reputation_score(
    completed: u64,
    failed: u64,
    disputes_won: u64,
    disputes_lost: u64,
    stake_lamports: u64,
    days_inactive: i64,
) -> (score: u8)
    ensures
        score == spec_reputation_score(
            completed as int,
            failed as int,
            disputes_won as int,
            disputes_lost as int,
            stake_lamports as int,
            days_inactive as int,
        ),
        score <= 100,
{
    let total_jobs: u128 = completed as u128 + failed as u128;
    proof {
        lemma_completion_rate_bound(completed as int, failed as int);
    }
    let mut base: i128 = if total_jobs == 0 {
        0
    } else {
        (completed as u128 * 100 / total_jobs) as i128
    };
    base = base + (disputes_won as i128) * 2;
    base = base - (disputes_lost as i128) * 5;
    let volume_bonus: i128 = if completed >= 50 {
        15
    } else if completed >= 20 {
        10
    } else if completed >= 5 {
        5
    } else {
        0
    };
    base = base + volume_bonus;
    let stake_units: u64 = stake_lamports / LAMPORTS_PER_UNIT;
    let stake_bonus: i128 = if stake_units >= 50 {
        10
    } else if stake_units >= 10 {
        5
    } else if stake_units >= 1 {
        2
    } else {
        0
    };
    base = base + stake_bonus;
    let multiplier: i128 = forgetting_multiplier(days_inactive) as i128;
    assert(base == spec_reputation_base(
        completed as int,
        failed as int,
        disputes_won as int,
        disputes_lost as int,
        stake_lamports as int,
    ));
    if base <= 0 {
        proof {
            lemma_nonpositive_base(base as int, multiplier as int);
        }
        return 0;
    }
    assert(0 < base * multiplier <= 0x4_0000_0000_0000_0000 * 100) by (nonlinear_arith)
        requires
            0 < base <= 0x4_0000_0000_0000_0000,
            70 <= multiplier <= 100,
    ;
    let adjusted: i128 = base * multiplier / 100;
    let held: i64 = if adjusted > 100 {
        100
    } else {
        adjusted as i64
    };
    clamp_u8(held, 0, 100)
}

} // verus!
