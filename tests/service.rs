use entitlement::checksum::validate_subscription_integrity;
use entitlement::error::EntitlementError;
use entitlement::service::EntitlementService;
use entitlement::subscription::{PlanType, SubscriptionRecord};
use entitlement::timestamp::{parse_rfc3339, Timestamp};
use entitlement::validity::is_subscription_active;

const DAY: i64 = 86_400;
const JAN_1: i64 = 1_704_067_200;

fn at(secs: i64) -> Timestamp {
    Timestamp { secs, nanos: 0 }
}

#[test]
fn new_service_is_free_with_no_usage() {
    let service = EntitlementService::new(20);
    let status = service.get_status(at(JAN_1), "2024-01-01");
    assert_eq!(status.plan_type, PlanType::Free);
    assert!(!status.is_active);
    assert_eq!(status.days_remaining, 0);
    assert_eq!(status.expires_at, None);
    assert_eq!(status.today_usage, 0);
    assert_eq!(status.max_daily_usage, 20);
}

#[test]
fn weekly_purchase_expires_after_seven_days() {
    let mut service = EntitlementService::new(20);
    let t = at(JAN_1);
    let status = service
        .apply_purchase("weekly", "cus_1".to_string(), Some("tok".to_string()), t, "2024-01-01")
        .unwrap();
    assert_eq!(status.plan_type, PlanType::Weekly);
    assert!(status.is_active);
    assert_eq!(status.days_remaining, 7);
    assert_eq!(status.expires_at.as_deref(), Some("2024-01-08T00:00:00+00:00"));
    let record = &service.subscription;
    assert_eq!(record.purchased_at.as_deref(), Some("2024-01-01T00:00:00+00:00"));
    assert_eq!(record.stripe_customer_id.as_deref(), Some("cus_1"));
    assert_eq!(record.verification_token.as_deref(), Some("tok"));
    assert!(validate_subscription_integrity(record));
    let expires = parse_rfc3339(record.expires_at.as_deref().unwrap()).unwrap();
    assert_eq!(expires, at(JAN_1 + 7 * DAY));
    assert!(is_subscription_active(record, at(JAN_1 + 6 * DAY + 23 * 3600)));
    assert!(!is_subscription_active(record, at(JAN_1 + 7 * DAY + 1)));
}

#[test]
fn monthly_purchase_runs_thirty_days() {
    let mut service = EntitlementService::new(20);
    let status = service.apply_purchase("monthly", "cus".to_string(), None, at(JAN_1), "d").unwrap();
    assert_eq!(status.plan_type, PlanType::Monthly);
    assert_eq!(status.days_remaining, 30);
    assert_eq!(status.expires_at.as_deref(), Some("2024-01-31T00:00:00+00:00"));
    assert_eq!(service.subscription.verification_token, None);
}

#[test]
fn unknown_plan_is_refused_without_change() {
    let mut service = EntitlementService::new(20);
    service.usage.set_usage("2024-01-01", 3);
    for name in ["yearly", "free", "Weekly", ""] {
        let result = service.apply_purchase(name, "cus".to_string(), None, at(JAN_1), "2024-01-01");
        assert_eq!(result, Err(EntitlementError::InvalidPlan));
        assert_eq!(service.subscription, SubscriptionRecord::default());
        assert_eq!(service.usage.get_usage("2024-01-01"), 3);
    }
}

#[test]
fn renewal_replaces_the_whole_record() {
    let mut service = EntitlementService::new(20);
    service.apply_purchase("monthly", "cus_a".to_string(), Some("t1".to_string()), at(JAN_1), "d").unwrap();
    let status = service
        .apply_purchase("weekly", "cus_b".to_string(), None, at(JAN_1 + DAY), "d")
        .unwrap();
    assert_eq!(status.days_remaining, 7);
    assert_eq!(service.subscription.stripe_customer_id.as_deref(), Some("cus_b"));
    assert_eq!(service.subscription.verification_token, None);
}

#[test]
fn reset_to_free_stores_the_default_record() {
    let mut service = EntitlementService::new(20);
    service.apply_purchase("weekly", "cus".to_string(), None, at(JAN_1), "d").unwrap();
    let status = service.reset_to_free(at(JAN_1), "d");
    assert_eq!(status.plan_type, PlanType::Free);
    assert!(!status.is_active);
    assert_eq!(service.subscription, SubscriptionRecord::default());
}

#[test]
fn check_validity_downgrades_an_expired_record() {
    let mut service = EntitlementService::new(20);
    service.apply_purchase("weekly", "cus".to_string(), None, at(JAN_1), "d").unwrap();
    let status = service.check_validity(at(JAN_1 + 3 * DAY), "d");
    assert!(status.is_active);
    assert_eq!(service.subscription.plan_type, PlanType::Weekly);
    let status = service.check_validity(at(JAN_1 + 8 * DAY), "d");
    assert_eq!(status.plan_type, PlanType::Free);
    assert_eq!(service.subscription, SubscriptionRecord::default());
}

#[test]
fn check_validity_downgrades_a_tampered_record() {
    let mut service = EntitlementService::new(20);
    service.apply_purchase("weekly", "cus".to_string(), None, at(JAN_1), "d").unwrap();
    service.subscription.expires_at = Some("2099-01-01T00:00:00+00:00".to_string());
    let status = service.check_validity(at(JAN_1 + DAY), "d");
    assert_eq!(status.plan_type, PlanType::Free);
    assert_eq!(service.subscription, SubscriptionRecord::default());
}

#[test]
fn guarded_convert_meters_unprivileged_calls() {
    let mut service = EntitlementService::new(2);
    assert_eq!(service.guarded_convert(at(JAN_1), "2024-01-01", false), Ok(1));
    assert_eq!(service.guarded_convert(at(JAN_1), "2024-01-01", false), Ok(0));
    assert_eq!(
        service.guarded_convert(at(JAN_1), "2024-01-01", false),
        Err(EntitlementError::QuotaExceeded { limit: 2, count: 2 })
    );
    assert_eq!(service.get_status(at(JAN_1), "2024-01-01").today_usage, 2);
}

#[test]
fn authenticated_session_is_never_refused() {
    let mut service = EntitlementService::new(1);
    for _ in 0..5 {
        assert!(service.guarded_convert(at(JAN_1), "2024-01-01", true).is_ok());
    }
    assert_eq!(service.usage.get_usage("2024-01-01"), 5);
}

#[test]
fn active_subscription_is_privileged() {
    let mut service = EntitlementService::new(1);
    service.apply_purchase("weekly", "cus".to_string(), None, at(JAN_1), "d").unwrap();
    for _ in 0..3 {
        assert!(service.guarded_convert(at(JAN_1 + DAY), "2024-01-02", false).is_ok());
    }
    assert_eq!(service.usage.get_usage("2024-01-02"), 3);
    assert_eq!(
        service.guarded_convert(at(JAN_1 + 8 * DAY), "2024-01-09", false),
        Ok(0)
    );
    assert!(service.guarded_convert(at(JAN_1 + 8 * DAY), "2024-01-09", false).is_err());
}
