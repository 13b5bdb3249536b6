use vstd::prelude::*;

verus! {

/// Why the pool cannot fund a claim.
#[derive(Clone, Copy, Debug, PartialEq, Eq, Structural)]
pub enum LiquidityFailure {
    /// The pool holds less of the target asset than one claim pays out.
    InsufficientLiquidity,
    /// The faucet holds no pool shares at all.
    NoShares,
    /// The faucet holds fewer shares than the claim needs to redeem.
    InsufficientShares,
}

/// The ways an operation of the faucet can fail. A failed operation changes
/// nothing.
#[derive(Clone, Copy, Debug, PartialEq, Eq, Structural)]
pub enum FaucetError {
    /// A configured claim amount is not positive.
    ValidationError,
    /// The caller is not the administrator.
    AuthorizationError,
    /// The identity claimed too recently.
    RateLimitError,
    /// The pool cannot fund the claim.
    LiquidityError(LiquidityFailure),
    /// The share computation does not fit in 128 bits.
    ArithmeticError,
}

impl FaucetError {
    /// A short description of the error.
    pub fn message(&self) -> (r: &'static str) {
        match self {
            FaucetError::ValidationError => "faucet amount must be positive",
            FaucetError::AuthorizationError => "unauthorized",
            FaucetError::RateLimitError => "claim interval not met",
            FaucetError::LiquidityError(LiquidityFailure::InsufficientLiquidity) => "insufficient liquidity in pool",
            FaucetError::LiquidityError(LiquidityFailure::NoShares) => "faucet has no shares in the pool",
            FaucetError::LiquidityError(LiquidityFailure::InsufficientShares) => "faucet doesn't have enough shares",
            FaucetError::ArithmeticError => "arithmetic overflow",
        }
    }
}

} // verus!
