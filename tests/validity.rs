use entitlement::checksum::create_subscription_with_checksum;
use entitlement::subscription::{PlanType, SubscriptionRecord};
use entitlement::timestamp::Timestamp;
use entitlement::validity::{
    days_until, decide_active, get_days_remaining, is_subscription_active, reset_if_expired,
};

const DAY: i64 = 86_400;
const JAN_1: i64 = 1_704_067_200;

fn at(secs: i64) -> Timestamp {
    Timestamp { secs, nanos: 0 }
}

fn paid(expires: Option<&str>, purchased: Option<&str>, customer: Option<&str>) -> SubscriptionRecord {
    create_subscription_with_checksum(
        PlanType::Monthly,
        expires.map(|s| s.to_string()),
        customer.map(|s| s.to_string()),
        None,
        purchased.map(|s| s.to_string()),
    )
}

#[test]
fn free_record_is_never_active() {
    let mut record = SubscriptionRecord::default();
    assert!(!is_subscription_active(&record, at(JAN_1)));
    record.expires_at = Some("2999-01-01T00:00:00Z".to_string());
    record.purchased_at = Some("2000-01-01T00:00:00Z".to_string());
    record.stripe_customer_id = Some("cus".to_string());
    record.checksum = Some("anything".to_string());
    assert!(!is_subscription_active(&record, at(JAN_1)));
}

#[test]
fn intact_paid_record_is_active_inside_its_window() {
    let record = paid(Some("2024-01-31T00:00:00Z"), Some("2024-01-01T00:00:00Z"), Some("cus"));
    assert!(is_subscription_active(&record, at(JAN_1)));
    assert!(is_subscription_active(&record, at(JAN_1 + 29 * DAY)));
    assert!(!is_subscription_active(&record, at(JAN_1 + 30 * DAY)));
    assert!(!is_subscription_active(&record, at(JAN_1 - 1)));
}

#[test]
fn tampered_record_is_inactive() {
    let mut record = paid(Some("2024-01-31T00:00:00Z"), Some("2024-01-01T00:00:00Z"), Some("cus"));
    record.expires_at = Some("2099-01-31T00:00:00Z".to_string());
    assert!(!is_subscription_active(&record, at(JAN_1 + DAY)));
}

#[test]
fn missing_fields_make_record_inactive() {
    let no_customer = paid(Some("2024-01-31T00:00:00Z"), Some("2024-01-01T00:00:00Z"), None);
    assert!(!is_subscription_active(&no_customer, at(JAN_1 + DAY)));
    let no_purchase = paid(Some("2024-01-31T00:00:00Z"), None, Some("cus"));
    assert!(!is_subscription_active(&no_purchase, at(JAN_1 + DAY)));
    let no_expiry = paid(None, Some("2024-01-01T00:00:00Z"), Some("cus"));
    assert!(!is_subscription_active(&no_expiry, at(JAN_1 + DAY)));
    let bad_expiry = paid(Some("soon"), Some("2024-01-01T00:00:00Z"), Some("cus"));
    assert!(!is_subscription_active(&bad_expiry, at(JAN_1 + DAY)));
    let bad_purchase = paid(Some("2024-01-31T00:00:00Z"), Some("yesterday"), Some("cus"));
    assert!(!is_subscription_active(&bad_purchase, at(JAN_1 + DAY)));
}

#[test]
fn decide_active_follows_the_rule() {
    let record = paid(Some("x"), Some("y"), Some("cus"));
    assert!(decide_active(&record, true, Some(at(10)), Some(at(0)), at(5)));
    assert!(decide_active(&record, true, Some(at(10)), Some(at(5)), at(5)));
    assert!(!decide_active(&record, true, Some(at(5)), Some(at(0)), at(5)));
    assert!(!decide_active(&record, true, Some(at(10)), Some(at(6)), at(5)));
    assert!(!decide_active(&record, false, Some(at(10)), Some(at(0)), at(5)));
    assert!(!decide_active(&record, true, None, Some(at(0)), at(5)));
    assert!(!decide_active(&SubscriptionRecord::default(), true, Some(at(10)), Some(at(0)), at(5)));
}

#[test]
fn days_remaining_rounds_down() {
    let record = paid(Some("2024-01-11T12:00:00Z"), Some("2024-01-01T00:00:00Z"), Some("cus"));
    assert_eq!(get_days_remaining(&record, at(JAN_1)), 10);
    assert_eq!(get_days_remaining(&record, at(JAN_1 + 10 * DAY)), 0);
    assert_eq!(days_until(Some(at(3 * DAY + 5)), at(0)), 3);
    assert_eq!(days_until(Some(at(DAY - 1)), at(0)), 0);
}

#[test]
fn days_remaining_is_zero_when_expired_missing_or_malformed() {
    let expired = paid(Some("2023-12-01T00:00:00Z"), Some("2023-11-01T00:00:00Z"), Some("cus"));
    assert_eq!(get_days_remaining(&expired, at(JAN_1)), 0);
    let missing = paid(None, Some("2023-11-01T00:00:00Z"), Some("cus"));
    assert_eq!(get_days_remaining(&missing, at(JAN_1)), 0);
    let malformed = paid(Some("next week"), Some("2023-11-01T00:00:00Z"), Some("cus"));
    assert_eq!(get_days_remaining(&malformed, at(JAN_1)), 0);
    assert_eq!(days_until(Some(at(i64::MIN)), at(i64::MAX)), 0);
    assert_eq!(days_until(None, at(0)), 0);
}

#[test]
fn days_remaining_survives_extreme_instants() {
    let far = days_until(Some(Timestamp { secs: i64::MAX, nanos: u32::MAX }), at(i64::MIN));
    assert!(far > 0);
}

#[test]
fn expired_paid_record_resets_to_fresh_default() {
    let record = paid(Some("2024-01-31T00:00:00Z"), Some("2024-01-01T00:00:00Z"), Some("cus"));
    assert_eq!(reset_if_expired(&record, at(JAN_1 + DAY)), None);
    let fresh = reset_if_expired(&record, at(JAN_1 + 31 * DAY)).unwrap();
    assert_eq!(fresh, SubscriptionRecord::default());
    assert_eq!(fresh.plan_type, PlanType::Free);
    assert_eq!(fresh.expires_at, None);
    assert_eq!(fresh.checksum, None);
    assert_eq!(reset_if_expired(&SubscriptionRecord::default(), at(JAN_1)), None);
}
