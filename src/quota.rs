//! The daily call budget, enforced on the usage ledger.

use crate::error::EntitlementError;
use crate::ledger::{usage_at, UsageLedger};
use vstd::prelude::*;

verus! {

/// The count after one more call; it stays put at the largest `u64`.
pub open spec fn next_count(count: u64) -> u64 {
    if count < u64::MAX {
        (count + 1) as u64
    } else {
        count
    }
}

/// Calls left of `limit` once `count` have been made.
pub open spec fn remaining_after(limit: u64, count: u64) -> u64 {
    if count < limit {
        (limit - count) as u64
    } else {
        0
    }
}

/// Whether an unprivileged call on `day` is refused: the day's count has
/// reached the limit.
pub open spec fn quota_refuses(
    usage: Map<Seq<char>, u64>,
    day: Seq<char>,
    limit: u64,
    privileged: bool,
) -> bool {
    !privileged && usage_at(usage, day) >= limit
}

/// What one call does to the ledger and what it reports: a refused call
/// leaves the ledger alone and reports the limit and the count; any other
/// call counts one more for `day` and reports the calls left.
pub open spec fn consume_outcome(
    before: Map<Seq<char>, u64>,
    day: Seq<char>,
    limit: u64,
    privileged: bool,
    after: Map<Seq<char>, u64>,
    result: Result<u64, EntitlementError>,
) -> bool {
    let count = usage_at(before, day);
    if quota_refuses(before, day, limit, privileged) {
        &&& result == Err::<u64, EntitlementError>(
            EntitlementError::QuotaExceeded { limit, count },
        )
        &&& after == before
    } else {
        &&& result == Ok::<u64, EntitlementError>(remaining_after(limit, next_count(count)))
        &&& after == before.insert(day, next_count(count))
    }
}

/// A per-calendar-day call budget.
#[derive(Clone, Copy, Debug, PartialEq, Eq, Structural)]
pub struct QuotaGuard {
    pub daily_limit: u64,
}

impl QuotaGuard {
    /// Checks the budget for `day` and counts the call. A privileged call
    /// skips the check but is still counted; a refused call is not counted.
    pub fn check_and_consume(&self, ledger: &mut UsageLedger, day: &str, privileged: bool) -> (r:
        Result<u64, EntitlementError>)
        ensures
            consume_outcome(old(ledger)@, day@, self.daily_limit, privileged, final(ledger)@, r),
            privileged ==> r is Ok && final(ledger)@ == old(ledger)@.insert(
                day@,
                next_count(usage_at(old(ledger)@, day@)),
            ),
            !privileged && usage_at(old(ledger)@, day@) < self.daily_limit ==> r == Ok::<
                u64,
                EntitlementError,
            >((self.daily_limit - usage_at(old(ledger)@, day@) - 1) as u64),
    {
        let count = ledger.get_usage(day);
        if !privileged && count >= self.daily_limit {
            return Err(EntitlementError::QuotaExceeded { limit: self.daily_limit, count });
        }
        let next = if count < u64::MAX {
            count + 1
        } else {
            count
        };
        ledger.set_usage(day, next);
        if next < self.daily_limit {
            Ok(self.daily_limit - next)
        } else {
            Ok(0)
        }
    }
}

} // verus!
