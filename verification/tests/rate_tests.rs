use autoshooter::rate::{InvalidRate, RateUnit, NANOS_PER_SECOND};
use autoshooter::rate;

#[test]
fn cps_sixty_gives_canonical_pair() {
    let pair = rate::set(RateUnit::Cps, 60).unwrap();
    assert_eq!(pair.cps, 60);
    assert_eq!(pair.wait_ns, 16_666_666);
}

#[test]
fn two_second_interval_is_rejected_not_stored() {
    assert_eq!(rate::set(RateUnit::Secs, 2), Err(InvalidRate));
}

#[test]
fn five_hundred_millis_gives_canonical_pair() {
    let pair = rate::set(RateUnit::Millis, 500).unwrap();
    assert_eq!(pair.wait_ns, 500_000_000);
    assert_eq!(pair.cps, 2);
}

#[test]
fn zero_is_rejected_in_every_unit() {
    assert_eq!(rate::set(RateUnit::Nanos, 0), Err(InvalidRate));
    assert_eq!(rate::set(RateUnit::Millis, 0), Err(InvalidRate));
    assert_eq!(rate::set(RateUnit::Secs, 0), Err(InvalidRate));
    assert_eq!(rate::set(RateUnit::Cps, 0), Err(InvalidRate));
}

#[test]
fn truncation_to_zero_is_rejected_at_the_boundary() {
    assert!(rate::set(RateUnit::Nanos, NANOS_PER_SECOND).is_ok());
    assert_eq!(rate::set(RateUnit::Nanos, NANOS_PER_SECOND + 1), Err(InvalidRate));
    assert!(rate::set(RateUnit::Millis, 1000).is_ok());
    assert_eq!(rate::set(RateUnit::Millis, 1001), Err(InvalidRate));
    assert!(rate::set(RateUnit::Secs, 1).is_ok());
    assert!(rate::set(RateUnit::Cps, NANOS_PER_SECOND).is_ok());
    assert_eq!(rate::set(RateUnit::Cps, NANOS_PER_SECOND + 1), Err(InvalidRate));
}

#[test]
fn one_second_interval_is_one_click_per_second() {
    let pair = rate::set(RateUnit::Secs, 1).unwrap();
    assert_eq!(pair.wait_ns, 1_000_000_000);
    assert_eq!(pair.cps, 1);
}

#[test]
fn same_unit_display_round_trips_exactly() {
    for (unit, raw) in [
        (RateUnit::Nanos, 123_456_789),
        (RateUnit::Nanos, 1),
        (RateUnit::Millis, 500),
        (RateUnit::Millis, 1),
        (RateUnit::Secs, 1),
        (RateUnit::Cps, 60),
        (RateUnit::Cps, 1_000_000_000),
    ] {
        let pair = rate::set(unit, raw).unwrap();
        assert_eq!(pair.display_value(unit), raw);
    }
}

#[test]
fn display_values_are_derived_from_the_canonical_pair() {
    let pair = rate::set(RateUnit::Cps, 60).unwrap();
    assert_eq!(pair.display_value(RateUnit::Nanos), 16_666_666);
    assert_eq!(pair.display_value(RateUnit::Millis), 16);
    assert_eq!(pair.display_value(RateUnit::Secs), 0);
    assert_eq!(pair.display_value(RateUnit::Cps), 60);
}

#[test]
fn product_stays_within_one_interval_of_a_second() {
    for raw in [1u64, 3, 7, 999, 123_456_789, 1_000_000_000] {
        let pair = rate::set(RateUnit::Nanos, raw).unwrap();
        let product = pair.cps as u128 * pair.wait_ns as u128;
        assert!(product <= 1_000_000_000);
        assert!(product >= 1_000_000_000 - pair.wait_ns as u128);
    }
    let pair = rate::set(RateUnit::Cps, 60).unwrap();
    let product = pair.cps as u128 * pair.wait_ns as u128;
    assert!(product <= 1_000_000_000);
    assert!(product >= 1_000_000_000 - pair.wait_ns as u128);
}

#[test]
fn cps_product_stays_within_one_rate_of_a_second() {
    for raw in [1u64, 2, 60, 31_623, 600_000_000, 1_000_000_000] {
        let pair = rate::set(RateUnit::Cps, raw).unwrap();
        let product = pair.cps as u128 * pair.wait_ns as u128;
        assert!(product <= 1_000_000_000);
        assert!(product >= 1_000_000_000 - pair.cps as u128);
    }
}
