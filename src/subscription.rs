//! The subscription record and its plan.

use vstd::prelude::*;

verus! {

/// The plan a subscription record stands for.
#[derive(Clone, Copy, Debug, PartialEq, Eq, Structural)]
pub enum PlanType {
    Free,
    Weekly,
    Monthly,
}

/// Whether two strings hold the same characters.
pub fn same_text(a: &str, b: &str) -> (r: bool)
    ensures
        r == (a@ == b@),
{
    a.to_owned() == b.to_owned()
}

impl PlanType {
    /// The plan's name as stored and as covered by the checksum.
    pub open spec fn spec_name(self) -> Seq<char> {
        match self {
            PlanType::Free => "free"@,
            PlanType::Weekly => "weekly"@,
            PlanType::Monthly => "monthly"@,
        }
    }

    /// Days of entitlement a purchase of the plan grants; none for `Free`.
    pub open spec fn spec_duration_days(self) -> Option<i64> {
        match self {
            PlanType::Free => None,
            PlanType::Weekly => Some(7),
            PlanType::Monthly => Some(30),
        }
    }

    pub fn name(&self) -> (r: &'static str)
        ensures
            r@ == self.spec_name(),
    {
        match self {
            PlanType::Free => "free",
            PlanType::Weekly => "weekly",
            PlanType::Monthly => "monthly",
        }
    }

    pub fn duration_days(&self) -> (r: Option<i64>)
        ensures
            r == self.spec_duration_days(),
    {
        match self {
            PlanType::Free => None,
            PlanType::Weekly => Some(7),
            PlanType::Monthly => Some(30),
        }
    }

    /// The plan whose name is `name`, if any.
    pub fn from_name(name: &str) -> (r: Option<PlanType>)
        ensures
            r == plan_named(name@),
    {
        if same_text(name, "free") {
            Some(PlanType::Free)
        } else if same_text(name, "weekly") {
            Some(PlanType::Weekly)
        } else if same_text(name, "monthly") {
            Some(PlanType::Monthly)
        } else {
            None
        }
    }
}

/// The plan named `name`, if any.
pub open spec fn plan_named(name: Seq<char>) -> Option<PlanType> {
    if name == "free"@ {
        Some(PlanType::Free)
    } else if name == "weekly"@ {
        Some(PlanType::Weekly)
    } else if name == "monthly"@ {
        Some(PlanType::Monthly)
    } else {
        None
    }
}

/// A subscription as persisted: the plan, RFC 3339 expiry and purchase
/// times, the billing customer, a verification token, and a hex checksum
/// over the other fields.
#[derive(Clone, Debug, PartialEq, Eq)]
pub struct SubscriptionRecord {
    pub plan_type: PlanType,
    pub expires_at: Option<String>,
    pub stripe_customer_id: Option<String>,
    pub verification_token: Option<String>,
    pub purchased_at: Option<String>,
    pub checksum: Option<String>,
}

/// Whether `record` is the fresh default: `Free` with every field absent.
pub open spec fn is_free_default(record: SubscriptionRecord) -> bool {
    &&& record.plan_type == PlanType::Free
    &&& record.expires_at is None
    &&& record.stripe_customer_id is None
    &&& record.verification_token is None
    &&& record.purchased_at is None
    &&& record.checksum is None
}

impl Default for SubscriptionRecord {
    fn default() -> (r: SubscriptionRecord)
        ensures
            is_free_default(r),
    {
        SubscriptionRecord {
            plan_type: PlanType::Free,
            expires_at: None,
            stripe_customer_id: None,
            verification_token: None,
            purchased_at: None,
            checksum: None,
        }
    }
}

} // verus!
