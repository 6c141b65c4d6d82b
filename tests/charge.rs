use orsta::charge::{calculate_charge_cents, PROMOTION_DURATION_SECS, MAX_CHARGEABLE_SECS};

const BASE: i64 = 1_700_000_000;

#[test]
fn full_hour_no_discount() {
    let user_created_at = BASE - PROMOTION_DURATION_SECS - 1;
    let charge = calculate_charge_cents(3_600, user_created_at, BASE);
    assert_eq!(charge, 48);
}

#[test]
fn full_hour_with_promotion() {
    let user_created_at = BASE - 1;
    let charge = calculate_charge_cents(3_600, user_created_at, BASE);
    assert_eq!(charge, 34);
}

#[test]
fn zero_duration_no_charge() {
    let user_created_at = BASE - 1;
    let charge = calculate_charge_cents(0, user_created_at, BASE);
    assert_eq!(charge, 0);
}

#[test]
fn half_hour_no_discount() {
    let user_created_at = BASE - PROMOTION_DURATION_SECS - 1;
    let charge = calculate_charge_cents(1_800, user_created_at, BASE);
    assert_eq!(charge, 24);
}

#[test]
fn exactly_at_promotion_boundary_gets_discount() {
    let user_created_at = BASE - PROMOTION_DURATION_SECS;
    let charge = calculate_charge_cents(3_600, user_created_at, BASE);
    assert_eq!(charge, 34);
}

#[test]
fn one_second_past_promotion_no_discount() {
    let user_created_at = BASE - PROMOTION_DURATION_SECS - 1;
    let charge = calculate_charge_cents(3_600, user_created_at, BASE);
    assert_eq!(charge, 48);
}

#[test]
fn charge_is_monotonic_in_duration() {
    for created in [BASE - 1, BASE - PROMOTION_DURATION_SECS - 1] {
        let mut previous = 0;
        for d in (0..20_000).step_by(7) {
            let c = calculate_charge_cents(d, created, BASE);
            assert!(c >= previous);
            previous = c;
        }
    }
}

#[test]
fn rounding_is_per_stage() {
    // 37 s is 0.49 cent (rounds to 0), 38 s is 0.507 cent (rounds to 1).
    assert_eq!(calculate_charge_cents(37, BASE, BASE), 0);
    assert_eq!(calculate_charge_cents(38, BASE - PROMOTION_DURATION_SECS - 1, BASE), 1);
    // 5 cents base, discounted 3.5 rounds away from zero to 4.
    assert_eq!(calculate_charge_cents(375, BASE, BASE), 4);
    // 10 hours: 480 base, 336 discounted.
    assert_eq!(calculate_charge_cents(36_000, BASE, BASE), 336);
}

#[test]
fn longest_chargeable_window_fits() {
    let c = calculate_charge_cents(MAX_CHARGEABLE_SECS, BASE - PROMOTION_DURATION_SECS - 1, BASE);
    assert_eq!(c, i32::MAX);
}
