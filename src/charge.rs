//! Pricing of one billing window: a pro-rated hourly rate with a
//! time-limited discount for new users.

use vstd::prelude::*;

verus! {

/// Base rate in cents per hour.
pub const HOURLY_RATE_CENTS: i64 = 48;

/// Discount granted to users inside the promotion period, in percent.
pub const PROMOTION_DISCOUNT_PERCENT: i64 = 30;

/// Length of the promotion period in seconds (two 30-day months).
pub const PROMOTION_DURATION_SECS: i64 = 5_184_000;

/// Longest window whose charge still fits the ledger's 32-bit cent field.
pub const MAX_CHARGEABLE_SECS: i64 = 161_061_273_562;

/// `n / d` rounded to the nearest integer, halves away from zero
/// (for `n >= 0` and `d > 0`).
pub open spec fn round_div(n: int, d: int) -> int {
    (2 * n + d) / (2 * d)
}

/// Undiscounted charge of a window: `duration_secs / 3600 * 48`, rounded.
pub open spec fn base_cents(duration_secs: int) -> int {
    round_div(duration_secs * HOURLY_RATE_CENTS, 3600)
}

/// A window that opens at most the promotion length after the user's
/// registration is discounted; the boundary itself is inside.
pub open spec fn in_promotion(user_created_at: int, window_started_at: int) -> bool {
    window_started_at - user_created_at <= PROMOTION_DURATION_SECS
}

/// Charge of a window: the rounded base, then the rounded discount on it.
pub open spec fn charge_of(duration_secs: int, user_created_at: int, window_started_at: int) -> int {
    let base = base_cents(duration_secs);
    if in_promotion(user_created_at, window_started_at) {
        round_div(base * (100 - PROMOTION_DISCOUNT_PERCENT), 100)
    } else {
        base
    }
}

/// Charge in cents for a window of `duration_secs` seconds that opened at
/// `billing_period_start`, for a user registered at `user_created_at`.
pub fn calculate_charge_cents(duration_secs: i64, user_created_at: i64, billing_period_start: i64) -> (r: i32)
    requires
        0 <= duration_secs <= MAX_CHARGEABLE_SECS,
    ensures
        r == charge_of(duration_secs as int, user_created_at as int, billing_period_start as int),
        0 <= r,
{
    let d = duration_secs as i128;
    let base: i128 = (2 * d * (HOURLY_RATE_CENTS as i128) + 3600) / 7200;
    assert(0 <= base <= 2147483647);
    let within_promotion = (billing_period_start as i128) - (user_created_at as i128)
        <= PROMOTION_DURATION_SECS as i128;
    let kept_percent: i128 = 100 - PROMOTION_DISCOUNT_PERCENT as i128;
    assert(kept_percent == 70);
    let cents: i128 = if within_promotion {
        (2 * (base * kept_percent) + 100) / 200
    } else {
        base
    };
    assert(0 <= cents <= base);
    cents as i32
}

/// With the promotion status fixed, a longer window never costs less.
pub proof fn lemma_charge_monotonic(d1: int, d2: int, user_created_at: int, window_started_at: int)
    requires
        0 <= d1 <= d2,
    ensures
        charge_of(d1, user_created_at, window_started_at) <= charge_of(d2, user_created_at, window_started_at),
{
    let b1 = base_cents(d1);
    let b2 = base_cents(d2);
    assert(2 * d1 * 48 + 3600 <= 2 * d2 * 48 + 3600);
    vstd::arithmetic::div_mod::lemma_div_is_ordered(2 * d1 * 48 + 3600, 2 * d2 * 48 + 3600, 7200);
    assert(b1 <= b2);
    vstd::arithmetic::div_mod::lemma_div_is_ordered(2 * b1 * 70 + 100, 2 * b2 * 70 + 100, 200);
}

/// A window no longer than `MAX_CHARGEABLE_SECS` costs between nothing and
/// `i32::MAX` cents.
pub proof fn lemma_charge_in_range(duration_secs: int, user_created_at: int, window_started_at: int)
    requires
        0 <= duration_secs <= MAX_CHARGEABLE_SECS,
    ensures
        0 <= charge_of(duration_secs, user_created_at, window_started_at) <= i32::MAX,
{
    let b = base_cents(duration_secs);
    assert(b == (2 * (duration_secs * 48) + 3600) / 7200);
    assert(0 <= b <= 2147483647) by (nonlinear_arith)
        requires
            b == (2 * (duration_secs * 48) + 3600) / 7200,
            0 <= duration_secs <= 161_061_273_562,
    ;
    assert(0 <= round_div(b * 70, 100) <= b);
}

} // verus!
