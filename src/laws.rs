//! Properties that relate the record, its checksum, purchases, expiry and
//! the quota.

use crate::checksum::{checksum_of, covered_text, hex_digit, integrity_holds, lower_hex, sha256_of};
use crate::ledger::usage_at;
use crate::quota::consume_outcome;
use crate::error::EntitlementError;
use crate::service::is_purchase_record;
use crate::subscription::{PlanType, SubscriptionRecord};
use crate::timestamp::{field_instant, NANOS_PER_DAY, NANOS_PER_SECOND};
use crate::validity::{downgrade_due, is_active_at};
use vstd::prelude::*;

verus! {

proof fn lemma_hex_digit_injective(m: int, n: int)
    requires
        0 <= m < 16,
        0 <= n < 16,
        hex_digit(m) == hex_digit(n),
    ensures
        m == n,
{
    assert(hex_digit(m) as int == if m < 10 { '0' as int + m } else { 'a' as int + (m - 10) });
    assert(hex_digit(n) as int == if n < 10 { '0' as int + n } else { 'a' as int + (n - 10) });
}

proof fn lemma_lower_hex_len(bytes: Seq<u8>)
    ensures
        lower_hex(bytes).len() == 2 * bytes.len(),
    decreases bytes.len(),
{
    if bytes.len() > 0 {
        lemma_lower_hex_len(bytes.drop_last());
    }
}

/// Distinct byte strings have distinct hex text.
pub proof fn lemma_lower_hex_injective(a: Seq<u8>, b: Seq<u8>)
    requires
        lower_hex(a) == lower_hex(b),
    ensures
        a == b,
    decreases a.len(),
{
    lemma_lower_hex_len(a);
    lemma_lower_hex_len(b);
    if a.len() > 0 {
        let ha = lower_hex(a);
        let n = ha.len();
        lemma_lower_hex_len(a.drop_last());
        lemma_lower_hex_len(b.drop_last());
        assert(ha[n - 2] == hex_digit(a.last() as int / 16));
        assert(ha[n - 2] == hex_digit(b.last() as int / 16));
        assert(ha[n - 1] == hex_digit(a.last() as int % 16));
        assert(ha[n - 1] == hex_digit(b.last() as int % 16));
        lemma_hex_digit_injective(a.last() as int / 16, b.last() as int / 16);
        lemma_hex_digit_injective(a.last() as int % 16, b.last() as int % 16);
        assert(lower_hex(a.drop_last()) =~= ha.subrange(0, n - 2));
        assert(lower_hex(b.drop_last()) =~= ha.subrange(0, n - 2));
        lemma_lower_hex_injective(a.drop_last(), b.drop_last());
        assert(a =~= a.drop_last().push(a.last()));
        assert(b =~= b.drop_last().push(b.last()));
    } else {
        assert(a =~= b);
    }
}

/// For a paid record, the integrity check passes exactly when the stored
/// checksum equals the one recomputed from the covered fields.
pub proof fn lemma_integrity_is_checksum_match(record: SubscriptionRecord)
    requires
        record.plan_type != PlanType::Free,
    ensures
        integrity_holds(record) <==> (record.checksum matches Some(c) && c@ == checksum_of(record)),
{
}

/// Editing the covered fields of an intact paid record without recomputing
/// its checksum leaves it inactive at every instant, whenever the edit
/// changes the digest of the covered fields.
pub proof fn lemma_edit_without_checksum_deactivates(
    record: SubscriptionRecord,
    edited: SubscriptionRecord,
    now: int,
)
    requires
        record.plan_type != PlanType::Free,
        integrity_holds(record),
        edited.checksum == record.checksum,
        sha256_of(covered_text(edited)) != sha256_of(covered_text(record)),
    ensures
        !is_active_at(edited, now),
{
    if edited.plan_type != PlanType::Free && integrity_holds(edited) {
        lemma_lower_hex_injective(
            sha256_of(covered_text(edited)),
            sha256_of(covered_text(record)),
        );
    }
}

/// A purchased record is active from the purchase instant up to, but not
/// including, the instant the plan's days later.
pub proof fn lemma_purchase_active_window(
    record: SubscriptionRecord,
    plan: PlanType,
    customer: Seq<char>,
    token: Option<String>,
    now: int,
    at: int,
)
    requires
        plan != PlanType::Free,
        is_purchase_record(record, plan, customer, token, now),
    ensures
        is_active_at(record, at) <==> now <= at < now + plan.spec_duration_days()->0
            * NANOS_PER_DAY,
{
}

/// A weekly purchase at `now` expires 7 days later: it is still active 6
/// days and 23 hours on, and no longer one second past the 7 days.
pub proof fn lemma_weekly_purchase_window(
    record: SubscriptionRecord,
    customer: Seq<char>,
    token: Option<String>,
    now: int,
)
    requires
        is_purchase_record(record, PlanType::Weekly, customer, token, now),
    ensures
        field_instant(record.expires_at) == Some(now + 7 * NANOS_PER_DAY),
        is_active_at(record, now + 6 * NANOS_PER_DAY + 23 * 3600 * NANOS_PER_SECOND),
        !is_active_at(record, now + 7 * NANOS_PER_DAY + NANOS_PER_SECOND),
{
    lemma_purchase_active_window(
        record,
        PlanType::Weekly,
        customer,
        token,
        now,
        now + 6 * NANOS_PER_DAY + 23 * 3600 * NANOS_PER_SECOND,
    );
    lemma_purchase_active_window(
        record,
        PlanType::Weekly,
        customer,
        token,
        now,
        now + 7 * NANOS_PER_DAY + NANOS_PER_SECOND,
    );
}

/// A paid record whose expiry has passed is due to be replaced by a fresh
/// `Free` record.
pub proof fn lemma_expired_paid_record_resets(record: SubscriptionRecord, now: int)
    requires
        record.plan_type != PlanType::Free,
        field_instant(record.expires_at) matches Some(e) && e <= now,
    ensures
        downgrade_due(record, now),
{
}

/// The first unprivileged call of a day with no count yet succeeds and
/// leaves one call fewer than the limit.
pub proof fn lemma_fresh_day_budget(
    before: Map<Seq<char>, u64>,
    day: Seq<char>,
    limit: u64,
    after: Map<Seq<char>, u64>,
    result: Result<u64, EntitlementError>,
)
    requires
        limit > 0,
        !before.contains_key(day),
        consume_outcome(before, day, limit, false, after, result),
    ensures
        result == Ok::<u64, EntitlementError>((limit - 1) as u64),
        usage_at(after, day) == 1,
{
}

/// A privileged call is never refused, whatever the day's count.
pub proof fn lemma_privileged_never_refused(
    before: Map<Seq<char>, u64>,
    day: Seq<char>,
    limit: u64,
    after: Map<Seq<char>, u64>,
    result: Result<u64, EntitlementError>,
)
    requires
        consume_outcome(before, day, limit, true, after, result),
    ensures
        result is Ok,
        usage_at(before, day) < u64::MAX ==> usage_at(after, day) == usage_at(before, day) + 1,
{
}

} // verus!
