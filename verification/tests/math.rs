use trustnet::utils::math::{
    clamp_u8, compute_rating_average, compute_reputation_score, forgetting_multiplier,
    integer_sqrt,
};

#[test]
fn integer_sqrt_of_small_values() {
    assert_eq!(integer_sqrt(0), 0);
    assert_eq!(integer_sqrt(1), 1);
    assert_eq!(integer_sqrt(2), 1);
    assert_eq!(integer_sqrt(3), 1);
    assert_eq!(integer_sqrt(4), 2);
    assert_eq!(integer_sqrt(15), 3);
    assert_eq!(integer_sqrt(16), 4);
    assert_eq!(integer_sqrt(17), 4);
    assert_eq!(integer_sqrt(99), 9);
    assert_eq!(integer_sqrt(100), 10);
}

#[test]
fn integer_sqrt_of_large_values() {
    assert_eq!(integer_sqrt(1_000_000_000), 31_622);
    assert_eq!(integer_sqrt(1_000_000_000_000), 1_000_000);
    assert_eq!(integer_sqrt(u64::MAX), 4_294_967_295);
    assert_eq!(integer_sqrt(4_294_967_295 * 4_294_967_295), 4_294_967_295);
    assert_eq!(integer_sqrt(4_294_967_295 * 4_294_967_295 - 1), 4_294_967_294);
}

#[test]
fn integer_sqrt_brackets_its_argument() {
    let mut v: u64 = 0;
    while v < 5_000 {
        let r = integer_sqrt(v);
        assert!(r * r <= v);
        assert!((r + 1) * (r + 1) > v);
        v += 1;
    }
}

#[test]
fn rating_average_first_and_second_rating() {
    assert_eq!(compute_rating_average(0, 0, 5), 500);
    assert_eq!(compute_rating_average(500, 1, 1), 300);
}

#[test]
fn rating_average_rounds_down() {
    assert_eq!(compute_rating_average(300, 2, 5), 366);
    assert_eq!(compute_rating_average(366, 3, 4), 374);
    assert_eq!(compute_rating_average(100, 0, 3), 300);
}

#[test]
fn rating_average_with_the_largest_count() {
    assert_eq!(compute_rating_average(500, u64::MAX, 1), 499);
    assert_eq!(compute_rating_average(u16::MAX, u64::MAX, 255), 65_534);
    assert_eq!(compute_rating_average(400, u64::MAX, 4), 400);
}

#[test]
fn clamp_u8_holds_a_value_between_its_bounds() {
    assert_eq!(clamp_u8(50, 0, 100), 50);
    assert_eq!(clamp_u8(-7, 0, 100), 0);
    assert_eq!(clamp_u8(1_000, 0, 100), 100);
    assert_eq!(clamp_u8(0, 0, 0), 0);
    assert_eq!(clamp_u8(255, 0, 255), 255);
}

#[test]
fn clamp_u8_keeps_the_low_eight_bits() {
    assert_eq!(clamp_u8(300, 0, 1_000), 44);
    assert_eq!(clamp_u8(-1, -10, 10), 255);
    assert_eq!(clamp_u8(256, 256, 256), 0);
}

#[test]
fn forgetting_multiplier_steps() {
    assert_eq!(forgetting_multiplier(i64::MIN), 100);
    assert_eq!(forgetting_multiplier(0), 100);
    assert_eq!(forgetting_multiplier(30), 100);
    assert_eq!(forgetting_multiplier(31), 95);
    assert_eq!(forgetting_multiplier(90), 95);
    assert_eq!(forgetting_multiplier(91), 90);
    assert_eq!(forgetting_multiplier(180), 90);
    assert_eq!(forgetting_multiplier(181), 80);
    assert_eq!(forgetting_multiplier(360), 80);
    assert_eq!(forgetting_multiplier(361), 70);
    assert_eq!(forgetting_multiplier(i64::MAX), 70);
}

#[test]
fn reputation_score_of_a_new_agent_is_zero() {
    assert_eq!(compute_reputation_score(0, 0, 0, 0, 0, 0), 0);
}

#[test]
fn reputation_score_exact_values() {
    // 8 of 10 completed: 80, plus 5 for volume, plus 2 for one unit of stake.
    assert_eq!(compute_reputation_score(8, 2, 0, 0, 1_000_000_000, 0), 87);
    // the same after 100 idle days keeps 90 percent: floor(87 * 90 / 100).
    assert_eq!(compute_reputation_score(8, 2, 0, 0, 1_000_000_000, 100), 78);
    // 1 of 2 completed: 50, plus 2 won times 2, less 1 lost times 5.
    assert_eq!(compute_reputation_score(1, 1, 2, 1, 0, 0), 49);
    assert_eq!(compute_reputation_score(1, 1, 2, 1, 0, 400), 34);
    // 3 of 4 completed: 75, with 5 units of stake: 77, after 50 days: floor(77 * 95 / 100).
    assert_eq!(compute_reputation_score(3, 1, 0, 0, 5_000_000_000, 50), 73);
    assert_eq!(compute_reputation_score(3, 1, 0, 0, 5_000_000_000, 200), 61);
}

#[test]
fn reputation_score_is_held_between_0_and_100() {
    assert_eq!(compute_reputation_score(100, 0, 10, 0, 50_000_000_000, 0), 100);
    assert_eq!(compute_reputation_score(0, 10, 0, 10, 0, 0), 0);
    assert_eq!(compute_reputation_score(1, 0, 0, 21, 0, 0), 0);
    assert_eq!(compute_reputation_score(1, 0, 0, 20, 0, 0), 0);
    assert_eq!(compute_reputation_score(1, 0, 0, 19, 0, 0), 5);
}

#[test]
fn reputation_score_bonuses() {
    // volume: 5, 20 and 50 completed jobs.
    assert_eq!(compute_reputation_score(4, 4, 0, 0, 0, 0), 50);
    assert_eq!(compute_reputation_score(5, 5, 0, 0, 0, 0), 55);
    assert_eq!(compute_reputation_score(20, 20, 0, 0, 0, 0), 60);
    assert_eq!(compute_reputation_score(50, 50, 0, 0, 0, 0), 65);
    // stake: below one unit, 1, 10 and 50 units.
    assert_eq!(compute_reputation_score(1, 1, 0, 0, 999_999_999, 0), 50);
    assert_eq!(compute_reputation_score(1, 1, 0, 0, 1_000_000_000, 0), 52);
    assert_eq!(compute_reputation_score(1, 1, 0, 0, 10_000_000_000, 0), 55);
    assert_eq!(compute_reputation_score(1, 1, 0, 0, 50_000_000_000, 0), 60);
}

#[test]
fn reputation_score_with_the_largest_counts() {
    assert_eq!(compute_reputation_score(u64::MAX, u64::MAX, 0, 0, 0, 0), 65);
    assert_eq!(compute_reputation_score(u64::MAX, 0, u64::MAX, 0, u64::MAX, i64::MAX), 100);
    assert_eq!(compute_reputation_score(u64::MAX, 0, 0, u64::MAX, u64::MAX, 0), 0);
}
