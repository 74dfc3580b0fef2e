//! The entitlement service: the subscription record, the usage ledger and the
//! quota, behind the operations the application calls.

use crate::checksum::{checksum_of, create_subscription_with_checksum};
use crate::error::EntitlementError;
use crate::ledger::{usage_at, UsageLedger};
use crate::quota::{consume_outcome, QuotaGuard};
use crate::subscription::{is_free_default, plan_named, PlanType, SubscriptionRecord};
use crate::timestamp::{
    field_instant,
    format_rfc3339,
    in_text_span,
    instant_text,
    Timestamp,
    NANOS_PER_DAY,
};
use crate::validity::{
    days_left,
    downgrade_due,
    get_days_remaining,
    is_active_at,
    is_subscription_active,
    reset_if_expired,
};
use vstd::prelude::*;

verus! {

/// What the application is shown of the entitlement state.
#[derive(Clone, Debug, PartialEq, Eq)]
pub struct SubscriptionStatus {
    pub plan_type: PlanType,
    pub is_active: bool,
    pub days_remaining: i64,
    pub expires_at: Option<String>,
    pub today_usage: u64,
    pub max_daily_usage: u64,
}

/// Whether `status` reports `record` and the count of `day` at `now`.
pub open spec fn status_reports(
    status: SubscriptionStatus,
    record: SubscriptionRecord,
    usage: Map<Seq<char>, u64>,
    limit: u64,
    day: Seq<char>,
    now: int,
) -> bool {
    &&& status.plan_type == record.plan_type
    &&& status.is_active == is_active_at(record, now)
    &&& status.days_remaining == days_left(record, now)
    &&& status.expires_at == record.expires_at
    &&& status.today_usage == usage_at(usage, day)
    &&& status.max_daily_usage == limit
}

/// The plan that a purchase named `name` buys; `None` for a name that is no
/// plan and for `free`.
pub open spec fn purchasable_plan(name: Seq<char>) -> Option<PlanType> {
    match plan_named(name) {
        Some(PlanType::Free) => None,
        other => other,
    }
}

/// Whether both the purchase instant and the expiry it leads to can be
/// written as RFC 3339 text, for a purchase of the plan named `name` at `now`.
pub open spec fn purchase_representable(name: Seq<char>, now: int) -> bool {
    match purchasable_plan(name) {
        Some(plan) => in_text_span(now) && in_text_span(
            now + plan.spec_duration_days()->0 * NANOS_PER_DAY,
        ),
        None => true,
    }
}

/// Whether `record` is the record that a purchase of `plan` by `customer`
/// with `token` at `now` yields: expiry the plan's days after `now`, both
/// instants as RFC 3339 text, and the checksum of its fields.
pub open spec fn is_purchase_record(
    record: SubscriptionRecord,
    plan: PlanType,
    customer: Seq<char>,
    token: Option<String>,
    now: int,
) -> bool {
    let expiry = now + plan.spec_duration_days()->0 * NANOS_PER_DAY;
    &&& record.plan_type == plan
    &&& record.expires_at matches Some(e) && e@ == instant_text(expiry)
    &&& field_instant(record.expires_at) == Some(expiry)
    &&& record.stripe_customer_id matches Some(c) && c@ == customer
    &&& record.verification_token == token
    &&& record.purchased_at matches Some(p) && p@ == instant_text(now)
    &&& field_instant(record.purchased_at) == Some(now)
    &&& record.checksum matches Some(k) && k@ == checksum_of(record)
}

fn copy_text(field: &Option<String>) -> (r: Option<String>)
    ensures
        r == *field,
{
    match field {
        Some(text) => Some(text.clone()),
        None => None,
    }
}

/// The subscription record, the usage ledger and the daily quota of one
/// store document. Every operation works on this value; the caller persists
/// it after each mutation.
#[derive(Debug)]
pub struct EntitlementService {
    pub subscription: SubscriptionRecord,
    pub usage: UsageLedger,
    pub guard: QuotaGuard,
}

impl EntitlementService {
    /// A service over a fresh `Free` record and an empty ledger.
    pub fn new(daily_limit: u64) -> (r: EntitlementService)
        ensures
            is_free_default(r.subscription),
            r.usage@ == Map::<Seq<char>, u64>::empty(),
            r.guard.daily_limit == daily_limit,
    {
        EntitlementService {
            subscription: SubscriptionRecord::default(),
            usage: UsageLedger::new(),
            guard: QuotaGuard { daily_limit },
        }
    }

    /// The current status at `now`, with the count of the date key `today`.
    pub fn get_status(&self, now: Timestamp, today: &str) -> (r: SubscriptionStatus)
        ensures
            status_reports(
                r,
                self.subscription,
                self.usage@,
                self.guard.daily_limit,
                today@,
                now@,
            ),
    {
        SubscriptionStatus {
            plan_type: self.subscription.plan_type,
            is_active: is_subscription_active(&self.subscription, now),
            days_remaining: get_days_remaining(&self.subscription, now),
            expires_at: copy_text(&self.subscription.expires_at),
            today_usage: self.usage.get_usage(today),
            max_daily_usage: self.guard.daily_limit,
        }
    }

    /// Records a purchase of the plan named `plan_name` at `now`: `weekly`
    /// runs 7 days, `monthly` 30. The whole record is replaced; any other
    /// name is refused before anything changes.
    pub fn apply_purchase(
        &mut self,
        plan_name: &str,
        stripe_customer_id: String,
        verification_token: Option<String>,
        now: Timestamp,
        today: &str,
    ) -> (r: Result<SubscriptionStatus, EntitlementError>)
        requires
            purchase_representable(plan_name@, now@),
        ensures
            purchasable_plan(plan_name@) is None ==> r == Err::<
                SubscriptionStatus,
                EntitlementError,
            >(EntitlementError::InvalidPlan) && *final(self) == *old(self),
            purchasable_plan(plan_name@) matches Some(plan) ==> {
                &&& is_purchase_record(
                    final(self).subscription,
                    plan,
                    stripe_customer_id@,
                    verification_token,
                    now@,
                )
                &&& final(self).usage == old(self).usage
                &&& final(self).guard == old(self).guard
                &&& r matches Ok(status) && status_reports(
                    status,
                    final(self).subscription,
                    final(self).usage@,
                    final(self).guard.daily_limit,
                    today@,
                    now@,
                )
            },
    {
        let plan = match PlanType::from_name(plan_name) {
            Some(PlanType::Weekly) => PlanType::Weekly,
            Some(PlanType::Monthly) => PlanType::Monthly,
            _ => return Err(EntitlementError::InvalidPlan),
        };
        let days: i64 = match plan.duration_days() {
            Some(d) => d,
            None => 0,
        };
        let expiry = Timestamp::from_total_nanos(now.total_nanos() + days as i128 * NANOS_PER_DAY);
        let expires_text = format_rfc3339(expiry);
        let purchased_text = format_rfc3339(now);
        let record = create_subscription_with_checksum(
            plan,
            Some(expires_text),
            Some(stripe_customer_id),
            verification_token,
            Some(purchased_text),
        );
        self.subscription = record;
        Ok(self.get_status(now, today))
    }

    /// Replaces the record by a fresh `Free` one.
    pub fn reset_to_free(&mut self, now: Timestamp, today: &str) -> (r: SubscriptionStatus)
        ensures
            is_free_default(final(self).subscription),
            final(self).usage == old(self).usage,
            final(self).guard == old(self).guard,
            status_reports(
                r,
                final(self).subscription,
                final(self).usage@,
                final(self).guard.daily_limit,
                today@,
                now@,
            ),
    {
        self.subscription = SubscriptionRecord::default();
        self.get_status(now, today)
    }

    /// Downgrades a paid record that is no longer active at `now` to a fresh
    /// `Free` one, and reports the status.
    pub fn check_validity(&mut self, now: Timestamp, today: &str) -> (r: SubscriptionStatus)
        ensures
            downgrade_due(old(self).subscription, now@) ==> is_free_default(
                final(self).subscription,
            ),
            !downgrade_due(old(self).subscription, now@) ==> final(self).subscription == old(
                self,
            ).subscription,
            final(self).usage == old(self).usage,
            final(self).guard == old(self).guard,
            status_reports(
                r,
                final(self).subscription,
                final(self).usage@,
                final(self).guard.daily_limit,
                today@,
                now@,
            ),
    {
        match reset_if_expired(&self.subscription, now) {
            Some(fresh) => {
                self.subscription = fresh;
            },
            None => {},
        }
        self.get_status(now, today)
    }

    /// Gates one metered call on `today`: a caller with an authenticated
    /// session or an active subscription is privileged and skips the budget.
    pub fn guarded_convert(&mut self, now: Timestamp, today: &str, is_authenticated: bool) -> (r:
        Result<u64, EntitlementError>)
        ensures
            consume_outcome(
                old(self).usage@,
                today@,
                old(self).guard.daily_limit,
                is_authenticated || is_active_at(old(self).subscription, now@),
                final(self).usage@,
                r,
            ),
            is_authenticated ==> r is Ok,
            final(self).subscription == old(self).subscription,
            final(self).guard == old(self).guard,
    {
        let privileged = is_authenticated || is_subscription_active(&self.subscription, now);
        self.guard.check_and_consume(&mut self.usage, today, privileged)
    }
}

} // verus!
