use vstd::prelude::*;

use crate::error::FaucetError;
use crate::faucet::FaucetModel;
use crate::sizing::{sizing_result, PoolSnapshot};

verus! {

/// An identity that never claimed may claim at any time, and has no time to
/// wait.
pub proof fn lemma_never_claimed_is_eligible(m: FaucetModel, user: u64, now: u64)
    requires
        !m.last_claims.contains_key(user),
    ensures
        m.can_claim(user, now),
        m.time_until(user, now) == 0,
{
}

/// A faucet that has just been set up has no claim on record, so every
/// identity may claim at once.
pub proof fn lemma_fresh_faucet_is_open(m: FaucetModel, user: u64, now: u64)
    requires
        m.last_claims == Map::<u64, u64>::empty(),
    ensures
        m.can_claim(user, now),
        m.time_until(user, now) == 0,
{
}

/// With no shares in the pool, a claim by an eligible identity fails with a
/// liquidity error, whatever the reserves, and records nothing.
pub proof fn lemma_no_shares_no_claim(m: FaucetModel, user: u64, now: u64, snap: PoolSnapshot)
    requires
        m.wf(),
        snap.wf(),
        snap.share_balance == 0,
        m.can_claim(user, now),
    ensures
        m.claim_result(user, now, snap) matches Err(FaucetError::LiquidityError(_)),
        m.after_claim(user, now, snap) == m,
{
}

/// A failed claim leaves the state, and so every recorded claim time, as it
/// was.
pub proof fn lemma_failed_claim_changes_nothing(
    m: FaucetModel,
    user: u64,
    now: u64,
    snap: PoolSnapshot,
)
    requires
        m.claim_result(user, now, snap) is Err,
    ensures
        m.after_claim(user, now, snap) == m,
        m.after_claim(user, now, snap).last_claim(user) == m.last_claim(user),
{
}

/// After a successful claim at `t` under interval `i`, the identity waits
/// exactly `i` seconds: at `t + d` it has `i - d` left, and at `t + i` it may
/// claim again, failing then only for want of liquidity. If `i` is positive it
/// cannot claim at `t`. Every other identity is unaffected.
pub proof fn lemma_claim_starts_cooldown(
    m: FaucetModel,
    user: u64,
    t: u64,
    snap: PoolSnapshot,
    d: u64,
    later: PoolSnapshot,
    other: u64,
    when: u64,
)
    requires
        m.wf(),
        m.claim_result(user, t, snap) is Ok,
        d <= m.claim_interval,
        t + m.claim_interval <= u64::MAX,
    ensures
        ({
            let n = m.after_claim(user, t, snap);
            let i = m.claim_interval;
            &&& n.time_until(user, t) == i
            &&& i > 0 ==> !n.can_claim(user, t)
            &&& n.time_until(user, (t + d) as u64) == i - d
            &&& n.can_claim(user, (t + i) as u64)
            &&& n.claim_result(user, (t + i) as u64, later) == sizing_result(
                later,
                m.faucet_amount as int,
                m.which_token,
            )
            &&& sizing_result(later, m.faucet_amount as int, m.which_token) is Ok ==> n.claim_result(
                user,
                (t + i) as u64,
                later,
            ) is Ok
            &&& other != user ==> n.time_until(other, when) == m.time_until(other, when)
            &&& other != user ==> n.claim_result(other, when, later) == m.claim_result(
                other,
                when,
                later,
            )
        }),
{
    let n = m.after_claim(user, t, snap);
    assert(n.last_claims == m.last_claims.insert(user, t));
    assert(n.last_claim(user) == Some(t));
    assert(other != user ==> n.last_claim(other) == m.last_claim(other));
}

} // verus!
