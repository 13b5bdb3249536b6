use vstd::prelude::*;

verus! {

/// Seconds left before an identity whose last claim was at `last` may claim
/// again: 0 once `last + interval` is reached.
pub open spec fn wait_time(last: Option<u64>, interval: u64, now: u64) -> int {
    match last {
        None => 0,
        Some(t) => if now >= t + interval {
            0
        } else {
            t + interval - now
        },
    }
}

/// `wait_time`, capped at the largest `u64`.
pub open spec fn capped_wait(last: Option<u64>, interval: u64, now: u64) -> u64 {
    if wait_time(last, interval, now) > u64::MAX {
        u64::MAX
    } else {
        wait_time(last, interval, now) as u64
    }
}

/// Seconds until an identity whose last successful claim was at `last` (`None`
/// if it never claimed) may claim again, given the claim interval and the time
/// now. Saturates at `u64::MAX`.
pub fn time_until_next(last: Option<u64>, interval: u64, now: u64) -> (r: u64)
    ensures
        r == capped_wait(last, interval, now),
        r == 0 <==> wait_time(last, interval, now) == 0,
{
    match last {
        None => 0,
        Some(t) => {
            let next: u128 = t as u128 + interval as u128;
            if now as u128 >= next {
                0
            } else {
                let left: u128 = next - now as u128;
                if left > u64::MAX as u128 {
                    u64::MAX
                } else {
                    left as u64
                }
            }
        },
    }
}

} // verus!
