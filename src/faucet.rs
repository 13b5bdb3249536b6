use vstd::prelude::*;
use std::collections::HashMap;

use crate::error::FaucetError;
use crate::ledger::{capped_wait, time_until_next, wait_time};
use crate::sizing::{
    available_estimate, available_for_claims, fits_i128, size_shares, sizing_result, PoolSnapshot,
    Withdrawal,
};

verus! {

broadcast use vstd::std_specs::hash::group_hash_axioms;

/// The abstract state of a faucet: its configuration, and for each identity
/// that ever claimed, the time of its last successful claim.
pub struct FaucetModel {
    pub admin: u64,
    pub pool: u64,
    pub faucet_amount: i128,
    pub claim_interval: u64,
    pub which_token: bool,
    pub last_claims: Map<u64, u64>,
}

/// The assets and minimums that an administrator's deposit moves into the pool.
#[derive(Clone, Copy, Debug, PartialEq, Eq, Structural)]
pub struct Deposit {
    pub desired_a: i128,
    pub min_a: i128,
    pub desired_b: i128,
    pub min_b: i128,
}

impl FaucetModel {
    /// Every claim pays a positive amount.
    pub open spec fn wf(self) -> bool {
        self.faucet_amount > 0
    }

    pub open spec fn last_claim(self, user: u64) -> Option<u64> {
        if self.last_claims.contains_key(user) {
            Some(self.last_claims[user])
        } else {
            None
        }
    }

    pub open spec fn time_until(self, user: u64, now: u64) -> u64 {
        capped_wait(self.last_claim(user), self.claim_interval, now)
    }

    pub open spec fn can_claim(self, user: u64, now: u64) -> bool {
        wait_time(self.last_claim(user), self.claim_interval, now) == 0
    }

    /// What a claim by `user` at `now` yields against the pool `snap`.
    pub open spec fn claim_result(self, user: u64, now: u64, snap: PoolSnapshot) -> Result<
        Withdrawal,
        FaucetError,
    > {
        if !self.can_claim(user, now) {
            Err(FaucetError::RateLimitError)
        } else {
            sizing_result(snap, self.faucet_amount as int, self.which_token)
        }
    }

    /// The state after a claim by `user` at `now`: the claim is recorded only
    /// when it succeeds.
    pub open spec fn after_claim(self, user: u64, now: u64, snap: PoolSnapshot) -> FaucetModel {
        if self.claim_result(user, now, snap) is Ok {
            self.record(user, now)
        } else {
            self
        }
    }

    pub open spec fn record(self, user: u64, now: u64) -> FaucetModel {
        FaucetModel { last_claims: self.last_claims.insert(user, now), ..self }
    }
}

/// A faucet: the configuration an administrator controls, and the ledger of
/// last claims.
pub struct Faucet {
    admin: u64,
    pool: u64,
    faucet_amount: i128,
    claim_interval: u64,
    which_token: bool,
    last_claims: HashMap<u64, u64>,
}

impl View for Faucet {
    type V = FaucetModel;

    closed spec fn view(&self) -> FaucetModel {
        FaucetModel {
            admin: self.admin,
            pool: self.pool,
            faucet_amount: self.faucet_amount,
            claim_interval: self.claim_interval,
            which_token: self.which_token,
            last_claims: self.last_claims@,
        }
    }
}

impl Faucet {
    /// A faucet run by `admin` that draws from `pool`, paying `faucet_amount`
    /// of asset `a` (when `which_token` holds) or `b` per claim, at most once
    /// per `claim_interval` seconds per identity. Nobody has claimed yet.
    pub fn new(admin: u64, pool: u64, faucet_amount: i128, claim_interval: u64, which_token: bool) -> (r:
        Result<Faucet, FaucetError>)
        ensures
            faucet_amount <= 0 <==> r == Err::<Faucet, FaucetError>(FaucetError::ValidationError),
            faucet_amount > 0 ==> r is Ok,
            r matches Ok(f) ==> {
                &&& f@.wf()
                &&& f@ == (FaucetModel {
                    admin,
                    pool,
                    faucet_amount,
                    claim_interval,
                    which_token,
                    last_claims: Map::empty(),
                })
            },
    {
        if faucet_amount <= 0 {
            return Err(FaucetError::ValidationError);
        }
        Ok(
            Faucet {
                admin,
                pool,
                faucet_amount,
                claim_interval,
                which_token,
                last_claims: HashMap::new(),
            },
        )
    }

    /// The time of `user`'s last successful claim, if any.
    pub fn last_claim(&self, user: u64) -> (r: Option<u64>)
        ensures
            r == self@.last_claim(user),
    {
        match self.last_claims.get(&user) {
            Some(t) => Some(*t),
            None => None,
        }
    }

    /// Seconds until `user` may claim again, at time `now`.
    pub fn time_until_next_claim(&self, user: u64, now: u64) -> (r: u64)
        ensures
            r == self@.time_until(user, now),
            r == 0 <==> self@.can_claim(user, now),
    {
        let last = self.last_claim(user);
        time_until_next(last, self.claim_interval, now)
    }

    /// Whether `user` may claim at time `now`.
    pub fn can_claim(&self, user: u64, now: u64) -> (r: bool)
        ensures
            r == self@.can_claim(user, now),
    {
        self.time_until_next_claim(user, now) == 0
    }

    /// Sets `user`'s last claim to `now`, whatever it was. The caller checks
    /// eligibility first.
    pub fn record_claim(&mut self, user: u64, now: u64)
        ensures
            final(self)@ == old(self)@.record(user, now),
    {
        self.last_claims.insert(user, now);
    }

    /// Decides a claim by `user` at time `now` against the pool `snap`. On
    /// success the claim is recorded, and the redemption to make is returned;
    /// the host then redeems it and pays the faucet amount to `user`, and
    /// discards the new state if either step fails. On failure nothing changes.
    pub fn claim(&mut self, user: u64, now: u64, snap: &PoolSnapshot) -> (r: Result<
        Withdrawal,
        FaucetError,
    >)
        requires
            old(self)@.wf(),
            snap.wf(),
        ensures
            r == old(self)@.claim_result(user, now, *snap),
            final(self)@ == old(self)@.after_claim(user, now, *snap),
            final(self)@.wf(),
    {
        if !self.can_claim(user, now) {
            return Err(FaucetError::RateLimitError);
        }
        let plan = size_shares(snap, self.faucet_amount, self.which_token);
        if plan.is_ok() {
            self.record_claim(user, now);
        }
        plan
    }

    /// An estimate of how much of the target asset the faucet's shares in the
    /// pool `snap` would fetch.
    pub fn get_available_for_claims(&self, snap: &PoolSnapshot) -> (r: i128)
        requires
            snap.wf(),
            snap.share_balance != 0 && snap.total_shares != 0 ==> fits_i128(
                snap.share_balance * snap.target_reserve(self@.which_token),
            ),
        ensures
            r == available_estimate(*snap, self@.which_token),
    {
        available_for_claims(snap, self.which_token)
    }

    /// Admits a deposit of liquidity by `caller`, which must be the
    /// administrator; the host then moves the assets and deposits them.
    pub fn deposit_liquidity(
        &self,
        caller: u64,
        desired_a: i128,
        min_a: i128,
        desired_b: i128,
        min_b: i128,
    ) -> (r: Result<Deposit, FaucetError>)
        ensures
            caller != self@.admin ==> r == Err::<Deposit, FaucetError>(FaucetError::AuthorizationError),
            caller == self@.admin ==> r == Ok::<Deposit, FaucetError>(
                Deposit { desired_a, min_a, desired_b, min_b },
            ),
    {
        if caller != self.admin {
            return Err(FaucetError::AuthorizationError);
        }
        Ok(Deposit { desired_a, min_a, desired_b, min_b })
    }

    /// Sets the amount each claim pays. Only the administrator may, and only
    /// to a positive amount.
    pub fn set_faucet_amount(&mut self, caller: u64, new_amount: i128) -> (r: Result<(), FaucetError>)
        requires
            old(self)@.wf(),
        ensures
            caller != old(self)@.admin ==> r == Err::<(), FaucetError>(FaucetError::AuthorizationError),
            caller == old(self)@.admin && new_amount <= 0 ==> r == Err::<(), FaucetError>(
                FaucetError::ValidationError,
            ),
            caller == old(self)@.admin && new_amount > 0 ==> r is Ok,
            r is Ok ==> final(self)@ == (FaucetModel { faucet_amount: new_amount, ..old(self)@ }),
            r is Err ==> final(self)@ == old(self)@,
            final(self)@.wf(),
    {
        if caller != self.admin {
            return Err(FaucetError::AuthorizationError);
        }
        if new_amount <= 0 {
            return Err(FaucetError::ValidationError);
        }
        self.faucet_amount = new_amount;
        Ok(())
    }

    /// Sets the least time between two claims of one identity. Only the
    /// administrator may.
    pub fn set_claim_interval(&mut self, caller: u64, new_interval: u64) -> (r: Result<(), FaucetError>)
        requires
            old(self)@.wf(),
        ensures
            caller != old(self)@.admin ==> r == Err::<(), FaucetError>(FaucetError::AuthorizationError),
            caller == old(self)@.admin ==> r is Ok,
            r is Ok ==> final(self)@ == (FaucetModel { claim_interval: new_interval, ..old(self)@ }),
            r is Err ==> final(self)@ == old(self)@,
            final(self)@.wf(),
    {
        if caller != self.admin {
            return Err(FaucetError::AuthorizationError);
        }
        self.claim_interval = new_interval;
        Ok(())
    }

    /// Chooses the asset that claims pay: `a` when `which_token` holds. Only
    /// the administrator may.
    pub fn set_token_type(&mut self, caller: u64, which_token: bool) -> (r: Result<(), FaucetError>)
        requires
            old(self)@.wf(),
        ensures
            caller != old(self)@.admin ==> r == Err::<(), FaucetError>(FaucetError::AuthorizationError),
            caller == old(self)@.admin ==> r is Ok,
            r is Ok ==> final(self)@ == (FaucetModel { which_token, ..old(self)@ }),
            r is Err ==> final(self)@ == old(self)@,
            final(self)@.wf(),
    {
        if caller != self.admin {
            return Err(FaucetError::AuthorizationError);
        }
        self.which_token = which_token;
        Ok(())
    }

    pub fn get_faucet_amount(&self) -> (r: i128)
        ensures
            r == self@.faucet_amount,
    {
        self.faucet_amount
    }

    pub fn get_claim_interval(&self) -> (r: u64)
        ensures
            r == self@.claim_interval,
    {
        self.claim_interval
    }

    /// Whether claims pay asset `a` (`true`) or `b` (`false`).
    pub fn get_token_type(&self) -> (r: bool)
        ensures
            r == self@.which_token,
    {
        self.which_token
    }

    pub fn get_pool_address(&self) -> (r: u64)
        ensures
            r == self@.pool,
    {
        self.pool
    }

    pub fn get_admin(&self) -> (r: u64)
        ensures
            r == self@.admin,
    {
        self.admin
    }
}

} // verus!
