//! The return addresses of a hosted checkout page.

use vstd::prelude::*;

verus! {

/// Where checkout returns after payment: `base`, the placeholder that the
/// payment service fills with the session id, and the plan bought.
pub fn checkout_success_url(base: &str, plan_type: &str) -> (r: String)
    ensures
        r@ == base@ + "?session_id={CHECKOUT_SESSION_ID}&plan_type="@ + plan_type@,
{
    let mut url = String::from_str(base);
    url.append("?session_id={CHECKOUT_SESSION_ID}&plan_type=");
    url.append(plan_type);
    url
}

/// Where checkout returns when it is abandoned: `base` and the plan chosen.
pub fn checkout_cancel_url(base: &str, plan_type: &str) -> (r: String)
    ensures
        r@ == base@ + "?plan_type="@ + plan_type@,
{
    let mut url = String::from_str(base);
    url.append("?plan_type=");
    url.append(plan_type);
    url
}

} // verus!
