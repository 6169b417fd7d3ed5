use macrodeck::clock::elapsed_millis;

#[test]
fn elapsed_millis_divides_ticks_by_a_thousand() {
    assert_eq!(elapsed_millis(5_000, 2_000), Some(3));
    assert_eq!(elapsed_millis(2_999, 2_000), Some(0));
    assert_eq!(elapsed_millis(202_000, 2_000), Some(200));
    assert_eq!(elapsed_millis(202_999, 2_000), Some(200));
    assert_eq!(elapsed_millis(203_000, 2_000), Some(201));
    assert_eq!(elapsed_millis(7, 7), Some(0));
}

#[test]
fn elapsed_millis_is_none_before_the_earlier_reading() {
    assert_eq!(elapsed_millis(2_000, 5_000), None);
    assert_eq!(elapsed_millis(0, 1), None);
}

#[test]
fn elapsed_millis_follows_the_counter_around() {
    assert_eq!(elapsed_millis(999, u64::MAX), Some(1));
    assert_eq!(elapsed_millis(u64::MAX / 2, 0), Some(u64::MAX / 2 / 1000));
    assert_eq!(elapsed_millis(u64::MAX / 2 + 1, 0), None);
    assert_eq!(elapsed_millis(u64::MAX, 0), None);
}
