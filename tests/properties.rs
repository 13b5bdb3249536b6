use faucet::{
    available_for_claims, size_shares, time_until_next, Deposit, Faucet, FaucetError,
    LiquidityFailure, PoolSnapshot, Withdrawal,
};

fn open_faucet(amount: i128, interval: u64, which_token: bool) -> Faucet {
    Faucet::new(1, 2, amount, interval, which_token).ok().unwrap()
}

fn snap(reserve_a: i128, reserve_b: i128, total_shares: i128, share_balance: i128) -> PoolSnapshot {
    PoolSnapshot { reserve_a, reserve_b, total_shares, share_balance }
}

#[test]
fn fresh_faucet_lets_everyone_claim() {
    let f = open_faucet(10, 60, true);
    for user in [0u64, 5, u64::MAX] {
        for now in [0u64, 1, 1_000_000, u64::MAX] {
            assert!(f.can_claim(user, now));
            assert_eq!(f.time_until_next_claim(user, now), 0);
            assert_eq!(f.last_claim(user), None);
        }
    }
}

#[test]
fn construction_rejects_non_positive_amounts() {
    for amount in [-100i128, -1, 0, i128::MIN] {
        assert!(matches!(Faucet::new(1, 2, amount, 60, true), Err(FaucetError::ValidationError)));
    }
    assert!(Faucet::new(1, 2, 1, 0, false).is_ok());
}

#[test]
fn set_faucet_amount_failures_keep_the_amount() {
    let mut f = open_faucet(100, 60, true);
    assert_eq!(f.set_faucet_amount(1, 0), Err(FaucetError::ValidationError));
    assert_eq!(f.get_faucet_amount(), 100);
    assert_eq!(f.set_faucet_amount(1, -7), Err(FaucetError::ValidationError));
    assert_eq!(f.get_faucet_amount(), 100);
    assert_eq!(f.set_faucet_amount(9, 500), Err(FaucetError::AuthorizationError));
    assert_eq!(f.get_faucet_amount(), 100);
    // A stranger is refused before the amount is even looked at.
    assert_eq!(f.set_faucet_amount(9, -5), Err(FaucetError::AuthorizationError));
    assert_eq!(f.get_faucet_amount(), 100);
}

#[test]
fn other_setters_need_the_admin() {
    let mut f = open_faucet(100, 60, true);
    assert_eq!(f.set_claim_interval(3, 10), Err(FaucetError::AuthorizationError));
    assert_eq!(f.get_claim_interval(), 60);
    assert_eq!(f.set_token_type(3, false), Err(FaucetError::AuthorizationError));
    assert_eq!(f.get_token_type(), true);
    assert_eq!(f.deposit_liquidity(3, 1, 1, 1, 1), Err(FaucetError::AuthorizationError));
    assert_eq!(
        f.deposit_liquidity(1, 7, 6, 5, 4),
        Ok(Deposit { desired_a: 7, min_a: 6, desired_b: 5, min_b: 4 })
    );
}

#[test]
fn sizing_with_exactly_enough_shares() {
    let s = snap(1000, 1000, 1000, 50);
    assert_eq!(size_shares(&s, 50, true), Ok(Withdrawal { shares: 50, min_a: 50, min_b: 0 }));
    let mut f = open_faucet(50, 3600, true);
    assert_eq!(f.claim(7, 100, &s), Ok(Withdrawal { shares: 50, min_a: 50, min_b: 0 }));
    assert_eq!(f.last_claim(7), Some(100));
}

#[test]
fn sizing_one_share_short() {
    let s = snap(1000, 1000, 1000, 49);
    let short = Err(FaucetError::LiquidityError(LiquidityFailure::InsufficientShares));
    assert_eq!(size_shares(&s, 50, true), short);
    let mut f = open_faucet(50, 3600, true);
    assert_eq!(f.claim(7, 100, &s), short);
    assert_eq!(f.last_claim(7), None);
}

#[test]
fn sizing_adds_the_buffer_and_rounds_down() {
    // 100 * 3000 * 101 / (2000 * 100) = 151.5
    let s = snap(500, 2000, 3000, 1000);
    assert_eq!(size_shares(&s, 100, false), Ok(Withdrawal { shares: 151, min_a: 0, min_b: 100 }));
}

#[test]
fn sizing_reports_missing_liquidity_first() {
    let s = snap(10, 1000, 1000, 0);
    assert_eq!(
        size_shares(&s, 50, true),
        Err(FaucetError::LiquidityError(LiquidityFailure::InsufficientLiquidity))
    );
    // A reserve of zero never reaches the division.
    let empty = snap(0, 0, 0, 10);
    assert_eq!(
        size_shares(&empty, 1, false),
        Err(FaucetError::LiquidityError(LiquidityFailure::InsufficientLiquidity))
    );
}

#[test]
fn sizing_overflow_is_an_arithmetic_error() {
    let s = snap(i128::MAX, 1, i128::MAX, 1);
    assert_eq!(size_shares(&s, 2, true), Err(FaucetError::ArithmeticError));
}

#[test]
fn zero_shares_always_fail_with_liquidity_error() {
    for s in [snap(1000, 1000, 1000, 0), snap(0, 0, 0, 0), snap(1, 1_000_000, 5, 0), snap(i128::MAX, i128::MAX, i128::MAX, 0)] {
        for which in [true, false] {
            let mut f = open_faucet(50, 3600, which);
            assert!(matches!(f.claim(3, 0, &s), Err(FaucetError::LiquidityError(_))));
            assert_eq!(f.last_claim(3), None);
        }
    }
}

#[test]
fn claim_starts_a_cooldown_for_that_identity_only() {
    let interval = 3600u64;
    let t = 1000u64;
    let s = snap(1000, 1000, 1000, 500);
    let mut f = open_faucet(50, interval, true);
    assert!(f.claim(1, t, &s).is_ok());
    assert!(!f.can_claim(1, t));
    assert_eq!(f.time_until_next_claim(1, t), interval);
    assert_eq!(f.time_until_next_claim(1, t + 600), interval - 600);
    assert_eq!(f.time_until_next_claim(1, t + interval - 1), 1);
    assert_eq!(f.time_until_next_claim(1, t + interval), 0);
    assert!(f.can_claim(1, t + interval));
    // Another identity claims at any time, first claim or not.
    assert!(f.can_claim(2, 0));
    assert!(f.claim(2, t + 1, &s).is_ok());
    assert!(f.claim(1, t + interval, &s).is_ok());
    assert_eq!(f.last_claim(1), Some(t + interval));
    assert_eq!(f.last_claim(2), Some(t + 1));
}

#[test]
fn rate_limited_claim_keeps_the_last_timestamp() {
    let s = snap(1000, 1000, 1000, 500);
    let mut f = open_faucet(50, 100, true);
    assert!(f.claim(4, 10, &s).is_ok());
    assert_eq!(f.claim(4, 50, &s), Err(FaucetError::RateLimitError));
    assert_eq!(f.last_claim(4), Some(10));
    assert_eq!(f.claim(4, 109, &s), Err(FaucetError::RateLimitError));
    assert_eq!(f.last_claim(4), Some(10));
}

#[test]
fn zero_interval_never_limits() {
    let s = snap(1000, 1000, 1000, 500);
    let mut f = open_faucet(50, 0, false);
    assert_eq!(f.claim(4, 10, &s), Ok(Withdrawal { shares: 50, min_a: 0, min_b: 50 }));
    assert!(f.can_claim(4, 10));
    assert!(f.claim(4, 10, &s).is_ok());
}

#[test]
fn available_for_claims_formula() {
    assert_eq!(available_for_claims(&snap(1000, 3000, 0, 10), true), 0);
    assert_eq!(available_for_claims(&snap(1000, 3000, 400, 0), false), 0);
    // 10 * 1000 / 3 = 3333.3
    assert_eq!(available_for_claims(&snap(1000, 3000, 3, 10), true), 3333);
    assert_eq!(available_for_claims(&snap(1000, 3000, 3, 10), false), 10000);
    let f = open_faucet(5, 1, false);
    assert_eq!(f.get_available_for_claims(&snap(1000, 3000, 7, 2)), 857);
}

#[test]
fn time_until_next_edges() {
    assert_eq!(time_until_next(None, 50, 0), 0);
    assert_eq!(time_until_next(Some(100), 50, 120), 30);
    assert_eq!(time_until_next(Some(100), 50, 150), 0);
    assert_eq!(time_until_next(Some(100), 50, 10), 140);
    assert_eq!(time_until_next(Some(u64::MAX), u64::MAX, 0), u64::MAX);
    assert_eq!(time_until_next(Some(u64::MAX), u64::MAX, u64::MAX), u64::MAX);
}

#[test]
fn record_claim_overwrites() {
    let mut f = open_faucet(5, 100, true);
    f.record_claim(8, 500);
    f.record_claim(8, 20);
    assert_eq!(f.last_claim(8), Some(20));
    assert_eq!(f.time_until_next_claim(8, 30), 90);
}

#[test]
fn error_messages() {
    assert_eq!(FaucetError::ValidationError.message(), "faucet amount must be positive");
    assert_eq!(FaucetError::AuthorizationError.message(), "unauthorized");
    assert_eq!(FaucetError::RateLimitError.message(), "claim interval not met");
    assert_eq!(
        FaucetError::LiquidityError(LiquidityFailure::NoShares).message(),
        "faucet has no shares in the pool"
    );
}

#[test]
fn available_with_no_total_shares_needs_no_product() {
    assert_eq!(available_for_claims(&snap(i128::MAX, 0, 0, i128::MAX), true), 0);
    let f = open_faucet(5, 1, true);
    assert_eq!(f.get_available_for_claims(&snap(i128::MAX, 0, 0, i128::MAX)), 0);
}

#[test]
fn admin_setters_accept_any_value() {
    let mut f = open_faucet(5, 100, true);
    assert_eq!(f.set_claim_interval(1, 0), Ok(()));
    assert_eq!(f.get_claim_interval(), 0);
    assert_eq!(f.set_claim_interval(1, u64::MAX), Ok(()));
    assert_eq!(f.get_claim_interval(), u64::MAX);
    assert_eq!(f.set_token_type(1, true), Ok(()));
    assert_eq!(f.get_token_type(), true);
    assert_eq!(f.get_faucet_amount(), 5);
}
