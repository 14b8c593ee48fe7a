use token_purchase::pricing::bonus_multiplier;
use token_purchase::pricing::token_amount;
use token_purchase::pricing::validate_request;
use token_purchase::ErrorCode;

#[test]
fn bonus_multiplier_matches_the_tier_table() {
    assert_eq!(bonus_multiplier(1), Ok(102));
    assert_eq!(bonus_multiplier(3), Ok(106));
    assert_eq!(bonus_multiplier(6), Ok(112));
    assert_eq!(bonus_multiplier(12), Ok(125));
}

#[test]
fn bonus_multiplier_rejects_unknown_selectors() {
    for selector in [0u8, 2, 4, 5, 7, 11, 13, 24, 255] {
        assert_eq!(bonus_multiplier(selector), Err(ErrorCode::InvalidLockDuration));
    }
}

#[test]
fn token_amount_one_native_unit_one_month() {
    assert_eq!(token_amount(1_000_000_000, 1), 102);
}

#[test]
fn token_amount_one_native_unit_twelve_months() {
    assert_eq!(token_amount(1_000_000_000, 12), 125);
}

#[test]
fn token_amount_half_native_unit_six_months() {
    assert_eq!(token_amount(500_000_000, 6), 56);
}

#[test]
fn token_amount_dust_truncates_to_zero() {
    assert_eq!(token_amount(1, 3), 0);
    assert_eq!(token_amount(9_999_999, 12), 0);
}

#[test]
fn token_amount_truncates_at_each_step() {
    // base = 199 (truncated), then 199 * 102 / 100 = 202 (truncated again)
    assert_eq!(token_amount(1_999_999_999, 1), 202);
    // base = 1, then 1 * 106 / 100 = 1
    assert_eq!(token_amount(10_000_000, 3), 1);
}

#[test]
fn token_amount_handles_the_largest_payment() {
    // base = u64::MAX * 100 / 1_000_000_000 = 1_844_674_407_370
    assert_eq!(token_amount(u64::MAX, 12), 2_305_843_009_212);
    assert_eq!(token_amount(u64::MAX, 1), 1_881_567_895_517);
}

#[test]
fn validate_request_accepts_valid_requests() {
    for selector in [1u8, 3, 6, 12] {
        assert_eq!(validate_request(1, selector), Ok(()));
        assert_eq!(validate_request(u64::MAX, selector), Ok(()));
    }
}

#[test]
fn validate_request_rejects_unknown_selectors() {
    for selector in [0u8, 2, 5, 13, 255] {
        assert_eq!(validate_request(1_000_000_000, selector), Err(ErrorCode::InvalidLockDuration));
    }
}

#[test]
fn validate_request_rejects_a_zero_payment() {
    for selector in [1u8, 3, 6, 12] {
        assert_eq!(validate_request(0, selector), Err(ErrorCode::InvalidAmount));
    }
}

#[test]
fn validate_request_checks_the_selector_first() {
    assert_eq!(validate_request(0, 2), Err(ErrorCode::InvalidLockDuration));
}

#[test]
fn error_messages_name_each_condition() {
    assert_eq!(
        ErrorCode::InvalidLockDuration.message(),
        "Invalid lock duration. Must be 1, 3, 6, or 12 months."
    );
    assert_eq!(
        ErrorCode::InvalidAmount.message(),
        "Invalid amount. Amount must be greater than 0."
    );
    assert_eq!(
        ErrorCode::InsufficientTreasuryBalance.message(),
        "Insufficient token balance in treasury."
    );
}
