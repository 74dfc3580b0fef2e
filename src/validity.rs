//! Whether a subscription record grants entitlement at an instant, and how
//! many whole days it has left.

use crate::checksum::{integrity_holds, validate_subscription_integrity};
use crate::subscription::{is_free_default, PlanType, SubscriptionRecord};
use crate::timestamp::{field_instant, lemma_instant_bounds, parse_rfc3339, Timestamp, NANOS_PER_DAY, NANOS_PER_SECOND};
use vstd::prelude::*;

verus! {

/// The instant of an optional timestamp.
pub open spec fn opt_instant(t: Option<Timestamp>) -> Option<int> {
    match t {
        Some(t) => Some(t@),
        None => None,
    }
}

/// The activity rule, given the integrity verdict and the instants that the
/// expiry and purchase texts read as: a paid plan, intact, with a customer and
/// a purchase time, purchased no later than `now` and expiring after it.
pub open spec fn active_given(
    record: SubscriptionRecord,
    integrity_ok: bool,
    expires: Option<int>,
    purchased: Option<int>,
    now: int,
) -> bool {
    &&& record.plan_type != PlanType::Free
    &&& integrity_ok
    &&& record.stripe_customer_id is Some
    &&& record.purchased_at is Some
    &&& expires matches Some(e) && e > now
    &&& purchased matches Some(p) && p <= now
}

/// Whether `record` grants entitlement at `now` (nanoseconds since the epoch).
pub open spec fn is_active_at(record: SubscriptionRecord, now: int) -> bool {
    active_given(
        record,
        integrity_holds(record),
        field_instant(record.expires_at),
        field_instant(record.purchased_at),
        now,
    )
}

/// Whole days from `now` to `expires`, rounded down; 0 when `expires` is
/// absent or not after `now`.
pub open spec fn days_between(expires: Option<int>, now: int) -> int {
    match expires {
        Some(e) => if e > now {
            (e - now) / NANOS_PER_DAY as int
        } else {
            0
        },
        None => 0,
    }
}

/// Whole days that `record` has left at `now`.
pub open spec fn days_left(record: SubscriptionRecord, now: int) -> int {
    days_between(field_instant(record.expires_at), now)
}

/// The activity rule on the integrity verdict and the parsed instants.
pub fn decide_active(
    record: &SubscriptionRecord,
    integrity_ok: bool,
    expires: Option<Timestamp>,
    purchased: Option<Timestamp>,
    now: Timestamp,
) -> (r: bool)
    ensures
        r == active_given(*record, integrity_ok, opt_instant(expires), opt_instant(purchased), now@),
{
    if record.plan_type == PlanType::Free || !integrity_ok {
        return false;
    }
    if record.stripe_customer_id.is_none() || record.purchased_at.is_none() {
        return false;
    }
    match (expires, purchased) {
        (Some(e), Some(p)) => e.total_nanos() > now.total_nanos() && p.total_nanos()
            <= now.total_nanos(),
        _ => false,
    }
}

fn parse_field(field: &Option<String>) -> (r: Option<Timestamp>)
    ensures
        opt_instant(r) == field_instant(*field),
{
    match field {
        Some(text) => parse_rfc3339(text.as_str()),
        None => None,
    }
}

/// Whether `record` grants entitlement at `now`. A `Free` record never does;
/// a paid one needs an intact checksum, a customer, a purchase time no later
/// than `now` and an expiry after it.
pub fn is_subscription_active(record: &SubscriptionRecord, now: Timestamp) -> (r: bool)
    ensures
        r == is_active_at(*record, now@),
        record.plan_type == PlanType::Free ==> !r,
        !integrity_holds(*record) ==> !r,
{
    if record.plan_type == PlanType::Free {
        return false;
    }
    let intact = validate_subscription_integrity(record);
    let expires = parse_field(&record.expires_at);
    let purchased = parse_field(&record.purchased_at);
    decide_active(record, intact, expires, purchased, now)
}

/// Whole days from `now` to `expires`, rounded down; 0 when `expires` is
/// absent or not after `now`.
pub fn days_until(expires: Option<Timestamp>, now: Timestamp) -> (r: i64)
    ensures
        r == days_between(opt_instant(expires), now@),
        r >= 0,
{
    match expires {
        Some(e) => {
            let end = e.total_nanos();
            let start = now.total_nanos();
            if end > start {
                proof {
                    lemma_instant_bounds(e);
                    lemma_instant_bounds(now);
                }
                let span: i128 = end - start;
                let days: i128 = span / NANOS_PER_DAY;
                assert(days <= i64::MAX) by (nonlinear_arith)
                    requires
                        span <= (i64::MAX as int + 1) * NANOS_PER_SECOND * 3,
                        days == span as int / NANOS_PER_DAY as int,
                        span > 0,
                ;
                days as i64
            } else {
                0
            }
        },
        None => 0,
    }
}

/// Whole days that `record` has left at `now`: 0 when the expiry is absent,
/// not RFC 3339, or not after `now`; never negative.
pub fn get_days_remaining(record: &SubscriptionRecord, now: Timestamp) -> (r: i64)
    ensures
        r == days_left(*record, now@),
        r >= 0,
        (field_instant(record.expires_at) matches Some(e) && e > now@) || r == 0,
{
    days_until(parse_field(&record.expires_at), now)
}

/// Whether `record` is a paid record that no longer grants entitlement at
/// `now`, and so is due to be replaced by a fresh `Free` record.
pub open spec fn downgrade_due(record: SubscriptionRecord, now: int) -> bool {
    record.plan_type != PlanType::Free && !is_active_at(record, now)
}

/// A fresh `Free` record to replace a paid record that is not active at
/// `now`; `None` where no downgrade is due.
pub fn reset_if_expired(record: &SubscriptionRecord, now: Timestamp) -> (r: Option<
    SubscriptionRecord,
>)
    ensures
        r is Some <==> downgrade_due(*record, now@),
        r matches Some(fresh) ==> is_free_default(fresh),
{
    if record.plan_type != PlanType::Free && !is_subscription_active(record, now) {
        Some(SubscriptionRecord::default())
    } else {
        None
    }
}

} // verus!
