use trustnet::utils::time::days_between;

#[test]
fn days_between_counts_whole_days() {
    assert_eq!(days_between(86_400 * 3 + 5, 0), 3);
    assert_eq!(days_between(86_399, 0), 0);
    assert_eq!(days_between(0, 86_400), -1);
    assert_eq!(days_between(-1, 0), 0);
}

#[test]
fn days_between_saturates() {
    assert_eq!(days_between(i64::MAX, i64::MIN), i64::MAX / 86_400);
    assert_eq!(days_between(i64::MIN, i64::MAX), i64::MIN / 86_400);
}
