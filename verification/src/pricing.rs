use vstd::prelude::*;
use vstd::arithmetic::div_mod::lemma_div_is_ordered;
use vstd::arithmetic::div_mod::lemma_div_pos_is_pos;
use vstd::arithmetic::mul::lemma_mul_nonnegative;
use vstd::arithmetic::mul::lemma_mul_upper_bound;
use crate::error::ErrorCode;

verus! {

/// Base conversion rate: `TOKENS_PER_CONVERSION_UNIT` token units are bought
/// by every `NATIVE_UNITS_PER_CONVERSION_UNIT` smallest native-currency
/// units, before the bonus multiplier is applied.
pub const TOKENS_PER_CONVERSION_UNIT: u64 = 100;
pub const NATIVE_UNITS_PER_CONVERSION_UNIT: u64 = 1_000_000_000;

/// The bonus multipliers are percentages over this base.
pub const MULTIPLIER_BASE: u64 = 100;

/// The fixed set of lock-duration selectors the sale accepts.
pub open spec fn valid_lock_duration(lock_duration_months: u8) -> bool {
    ||| lock_duration_months == 1
    ||| lock_duration_months == 3
    ||| lock_duration_months == 6
    ||| lock_duration_months == 12
}

/// The bonus tier table: the percent multiplier earned by each valid
/// lock-duration selector. Selectors outside the table never reach this
/// lookup; validation rejects them first.
pub open spec fn multiplier_of(lock_duration_months: u8) -> u64
    recommends
        valid_lock_duration(lock_duration_months),
{
    if lock_duration_months == 1 {
        102
    } else if lock_duration_months == 3 {
        106
    } else if lock_duration_months == 6 {
        112
    } else {
        125
    }
}

/// Base token quantity bought by `sol_amount`, before the bonus: one
/// truncating integer division, kept separate from the multiplier step so the
/// result is bit-exact on every node.
pub open spec fn base_token_amount_of(sol_amount: u64) -> int {
    (sol_amount as int) * (TOKENS_PER_CONVERSION_UNIT as int)
        / (NATIVE_UNITS_PER_CONVERSION_UNIT as int)
}

/// The token amount a valid purchase credits: the base quantity scaled by the
/// tier's percent multiplier, truncating again.
pub open spec fn token_amount_of(sol_amount: u64, lock_duration_months: u8) -> int
    recommends
        valid_lock_duration(lock_duration_months),
{
    base_token_amount_of(sol_amount) * (multiplier_of(lock_duration_months) as int)
        / (MULTIPLIER_BASE as int)
}

/// Fail-fast validation of a purchase request, checked before any side
/// effect: the selector must sit in the tier table, and the payment must be
/// strictly positive. The selector is checked first.
pub fn validate_request(sol_amount: u64, lock_duration_months: u8) -> (r: Result<(), ErrorCode>)
    ensures
        !valid_lock_duration(lock_duration_months) ==> r == Err::<(), ErrorCode>(
            ErrorCode::InvalidLockDuration,
        ),
        valid_lock_duration(lock_duration_months) && sol_amount == 0 ==> r == Err::<
            (),
            ErrorCode,
        >(ErrorCode::InvalidAmount),
        valid_lock_duration(lock_duration_months) && sol_amount > 0 ==> r == Ok::<(), ErrorCode>(
            (),
        ),
{
    if !(lock_duration_months == 1 || lock_duration_months == 3 || lock_duration_months == 6
        || lock_duration_months == 12) {
        return Err(ErrorCode::InvalidLockDuration);
    }
    if sol_amount == 0 {
        return Err(ErrorCode::InvalidAmount);
    }
    Ok(())
}

/// Looks the multiplier up in the fixed tier table. An unknown selector is
/// rejected, never silently defaulted.
pub fn bonus_multiplier(lock_duration_months: u8) -> (r: Result<u64, ErrorCode>)
    ensures
        valid_lock_duration(lock_duration_months) ==> r == Ok::<u64, ErrorCode>(
            multiplier_of(lock_duration_months),
        ),
        !valid_lock_duration(lock_duration_months) ==> r == Err::<u64, ErrorCode>(
            ErrorCode::InvalidLockDuration,
        ),
{
    match lock_duration_months {
        1 => Ok(102),
        3 => Ok(106),
        6 => Ok(112),
        12 => Ok(125),
        _ => Err(ErrorCode::InvalidLockDuration),
    }
}

/// The credited amount is small: even the largest payment at the richest tier
/// stays far under `u64::MAX`, so the token leg's amount always fits.
proof fn lemma_token_amount_fits(sol_amount: u64, lock_duration_months: u8)
    requires
        valid_lock_duration(lock_duration_months),
    ensures
        0 <= base_token_amount_of(sol_amount) <= 1_844_674_407_370,
        0 <= token_amount_of(sol_amount, lock_duration_months) <= 2_305_843_009_212,
{
    let scaled = (sol_amount as int) * 100;
    lemma_div_pos_is_pos(scaled, 1_000_000_000);
    lemma_div_is_ordered(scaled, 0xffff_ffff_ffff_ffffint * 100, 1_000_000_000);
    let base = base_token_amount_of(sol_amount);
    let multiplier = multiplier_of(lock_duration_months) as int;
    lemma_mul_nonnegative(base, multiplier);
    lemma_mul_upper_bound(base, 1_844_674_407_370, multiplier, 125);
    lemma_div_pos_is_pos(base * multiplier, 100);
    lemma_div_is_ordered(base * multiplier, 1_844_674_407_370int * 125, 100);
}

/// Computes the bonus-adjusted token amount for a validated request: two
/// truncating integer divisions, exactly as `token_amount_of` states them.
pub fn token_amount(sol_amount: u64, lock_duration_months: u8) -> (r: u64)
    requires
        valid_lock_duration(lock_duration_months),
    ensures
        r == token_amount_of(sol_amount, lock_duration_months),
{
    proof {
        lemma_token_amount_fits(sol_amount, lock_duration_months);
    }
    let base: u128 = (sol_amount as u128) * (TOKENS_PER_CONVERSION_UNIT as u128)
        / (NATIVE_UNITS_PER_CONVERSION_UNIT as u128);
    let multiplier: u64 = match bonus_multiplier(lock_duration_months) {
        Ok(m) => m,
        Err(_) => 0,  // unreachable: the selector is valid
    };
    let total: u128 = base * (multiplier as u128) / (MULTIPLIER_BASE as u128);
    total as u64
}

} // verus!
