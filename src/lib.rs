//! Local entitlement and usage metering: a tamper-aware subscription record,
//! expiry arithmetic, and a per-day call quota; with the account and checkout
//! results that surround them.

pub mod account;
pub mod billing;
pub mod checksum;
pub mod error;
pub mod laws;
pub mod ledger;
pub mod quota;
pub mod service;
pub mod subscription;
pub mod text;
pub mod timestamp;
pub mod validity;
