use vstd::prelude::*;

use crate::error::{FaucetError, LiquidityFailure};

verus! {

/// What the pool reports at the start of a claim: both reserves, the total
/// number of shares, and how many of them the faucet holds.
#[derive(Clone, Copy, Debug, PartialEq, Eq, Structural)]
pub struct PoolSnapshot {
    pub reserve_a: i128,
    pub reserve_b: i128,
    pub total_shares: i128,
    pub share_balance: i128,
}

impl PoolSnapshot {
    /// Reserves and share counts are quantities: none is negative.
    pub open spec fn wf(self) -> bool {
        &&& self.reserve_a >= 0
        &&& self.reserve_b >= 0
        &&& self.total_shares >= 0
        &&& self.share_balance >= 0
    }

    /// The reserve of the asset that is paid out: `a` when `which_token` holds.
    pub open spec fn target_reserve(self, which_token: bool) -> int {
        if which_token { self.reserve_a as int } else { self.reserve_b as int }
    }
}

/// The redemption a claim asks of the pool: how many shares to give back, and
/// the least of each asset to accept for them.
#[derive(Clone, Copy, Debug, PartialEq, Eq, Structural)]
pub struct Withdrawal {
    pub shares: i128,
    pub min_a: i128,
    pub min_b: i128,
}

pub open spec fn fits_i128(x: int) -> bool {
    i128::MIN <= x <= i128::MAX
}

/// The shares that pay `amount` of an asset whose reserve is `target_reserve`,
/// with one percent added to absorb the pool's rounding.
pub open spec fn shares_needed(amount: int, total_shares: int, target_reserve: int) -> int {
    (amount * total_shares * 101) / (target_reserve * 100)
}

/// The outcome of sizing a claim of `amount` of the target asset.
pub open spec fn sizing_result(snap: PoolSnapshot, amount: int, which_token: bool) -> Result<
    Withdrawal,
    FaucetError,
> {
    let target = snap.target_reserve(which_token);
    if target < amount {
        Err(FaucetError::LiquidityError(LiquidityFailure::InsufficientLiquidity))
    } else if snap.share_balance == 0 {
        Err(FaucetError::LiquidityError(LiquidityFailure::NoShares))
    } else if !fits_i128(amount * snap.total_shares * 101) || !fits_i128(target * 100) {
        Err(FaucetError::ArithmeticError)
    } else if shares_needed(amount, snap.total_shares as int, target) > snap.share_balance {
        Err(FaucetError::LiquidityError(LiquidityFailure::InsufficientShares))
    } else {
        Ok(
            Withdrawal {
                shares: shares_needed(amount, snap.total_shares as int, target) as i128,
                min_a: if which_token { amount as i128 } else { 0 },
                min_b: if which_token { 0 } else { amount as i128 },
            },
        )
    }
}

/// Sizes the redemption that pays `amount` of the target asset (`a` when
/// `which_token` holds) out of the pool described by `snap`.
pub fn size_shares(snap: &PoolSnapshot, amount: i128, which_token: bool) -> (r: Result<
    Withdrawal,
    FaucetError,
>)
    requires
        snap.wf(),
        amount > 0,
    ensures
        r == sizing_result(*snap, amount as int, which_token),
{
    let target: i128 = if which_token { snap.reserve_a } else { snap.reserve_b };
    if target < amount {
        return Err(FaucetError::LiquidityError(LiquidityFailure::InsufficientLiquidity));
    }
    if snap.share_balance == 0 {
        return Err(FaucetError::LiquidityError(LiquidityFailure::NoShares));
    }
    let numerator: i128 = match amount.checked_mul(snap.total_shares) {
        Some(p) => match p.checked_mul(101) {
            Some(q) => q,
            None => return Err(FaucetError::ArithmeticError),
        },
        None => {
            proof {
                assert(amount * snap.total_shares * 101 >= amount * snap.total_shares) by (nonlinear_arith)
                    requires amount > 0, snap.total_shares >= 0;
            }
            return Err(FaucetError::ArithmeticError);
        },
    };
    let denominator: i128 = match target.checked_mul(100) {
        Some(d) => d,
        None => return Err(FaucetError::ArithmeticError),
    };
    proof {
        assert(numerator >= 0) by (nonlinear_arith)
            requires numerator == amount * snap.total_shares * 101, amount > 0, snap.total_shares >= 0;
    }
    let shares: i128 = numerator / denominator;
    if shares > snap.share_balance {
        return Err(FaucetError::LiquidityError(LiquidityFailure::InsufficientShares));
    }
    let min_a: i128 = if which_token { amount } else { 0 };
    let min_b: i128 = if which_token { 0 } else { amount };
    Ok(Withdrawal { shares, min_a, min_b })
}

/// An estimate of what the faucet's shares are worth in the target asset:
/// `share_balance * target_reserve / total_shares`, rounded down, or 0 when
/// either share count is 0.
pub open spec fn available_estimate(snap: PoolSnapshot, which_token: bool) -> int {
    if snap.share_balance == 0 || snap.total_shares == 0 {
        0
    } else {
        (snap.share_balance * snap.target_reserve(which_token)) / snap.total_shares as int
    }
}

/// How much of the target asset the faucet's shares would fetch, ignoring the
/// buffer and the price impact of redeeming them.
pub fn available_for_claims(snap: &PoolSnapshot, which_token: bool) -> (r: i128)
    requires
        snap.wf(),
        snap.share_balance != 0 && snap.total_shares != 0 ==> fits_i128(
            snap.share_balance * snap.target_reserve(which_token),
        ),
    ensures
        r == available_estimate(*snap, which_token),
{
    if snap.share_balance == 0 {
        return 0;
    }
    if snap.total_shares == 0 {
        return 0;
    }
    let target: i128 = if which_token { snap.reserve_a } else { snap.reserve_b };
    proof {
        assert(snap.share_balance * target >= 0) by (nonlinear_arith)
            requires snap.share_balance >= 0, target >= 0;
    }
    let product: i128 = snap.share_balance * target;
    product / snap.total_shares
}

} // verus!
