//! The errors that entitlement operations report.

use vstd::prelude::*;

verus! {

#[derive(Clone, Debug, PartialEq, Eq)]
pub enum EntitlementError {
    /// The persistence backend could not read or write the document; the
    /// persisted state is left as it was.
    StoreFailure { message: String },
    /// A purchase named a plan that cannot be bought.
    InvalidPlan,
    /// The day's call budget is spent: `count` calls against `limit`.
    QuotaExceeded { limit: u64, count: u64 },
}

} // verus!
