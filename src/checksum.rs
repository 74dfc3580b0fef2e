//! The integrity checksum of a subscription record: SHA-256 over the
//! `|`-joined covered fields, written as lowercase hex.

use crate::subscription::{PlanType, SubscriptionRecord};
use vstd::prelude::*;

verus! {

/// The SHA-256 digest of the UTF-8 bytes of `text`.
pub uninterp spec fn sha256_of(text: Seq<char>) -> Seq<u8>;

/// Relies on sha2's `Sha256::digest`, applied to the UTF-8 bytes of `text`;
/// its output is 32 bytes.
#[verifier::external_body]
fn sha256_digest(text: &str) -> (r: Vec<u8>)
    ensures
        r@ == sha256_of(text@),
        r@.len() == 32,
{
    <sha2::Sha256 as sha2::Digest>::digest(text.as_bytes()).to_vec()
}

/// The lowercase hex digit of `n` (below 16).
pub open spec fn hex_digit(n: int) -> char {
    if n < 10 {
        ('0' as int + n) as char
    } else {
        ('a' as int + (n - 10)) as char
    }
}

/// Two lowercase hex digits per byte, most significant first.
pub open spec fn lower_hex(bytes: Seq<u8>) -> Seq<char>
    decreases bytes.len(),
{
    if bytes.len() == 0 {
        Seq::empty()
    } else {
        lower_hex(bytes.drop_last()) + seq![
            hex_digit(bytes.last() as int / 16),
            hex_digit(bytes.last() as int % 16),
        ]
    }
}

/// The text of an optional field: its characters, or nothing when absent.
pub open spec fn field_text(field: Option<String>) -> Seq<char> {
    match field {
        Some(text) => text@,
        None => Seq::empty(),
    }
}

/// The covered fields in fixed order, joined by `|`.
pub open spec fn covered_text(record: SubscriptionRecord) -> Seq<char> {
    record.plan_type.spec_name() + "|"@ + field_text(record.expires_at) + "|"@ + field_text(
        record.stripe_customer_id,
    ) + "|"@ + field_text(record.verification_token) + "|"@ + field_text(record.purchased_at)
}

/// The checksum that `record`'s covered fields call for.
pub open spec fn checksum_of(record: SubscriptionRecord) -> Seq<char> {
    lower_hex(sha256_of(covered_text(record)))
}

/// Whether `record` passes the integrity check: a `Free` record always does,
/// any other only with a stored checksum equal to the one its fields call for.
pub open spec fn integrity_holds(record: SubscriptionRecord) -> bool {
    record.plan_type == PlanType::Free || (record.checksum matches Some(c) && c@ == checksum_of(
        record,
    ))
}

fn hex_digit_text(n: u8) -> (r: &'static str)
    requires
        n < 16,
    ensures
        r@ == seq![hex_digit(n as int)],
{
    proof {
        reveal_strlit("0");
        reveal_strlit("1");
        reveal_strlit("2");
        reveal_strlit("3");
        reveal_strlit("4");
        reveal_strlit("5");
        reveal_strlit("6");
        reveal_strlit("7");
        reveal_strlit("8");
        reveal_strlit("9");
        reveal_strlit("a");
        reveal_strlit("b");
        reveal_strlit("c");
        reveal_strlit("d");
        reveal_strlit("e");
        reveal_strlit("f");
    }
    match n {
        0 => "0",
        1 => "1",
        2 => "2",
        3 => "3",
        4 => "4",
        5 => "5",
        6 => "6",
        7 => "7",
        8 => "8",
        9 => "9",
        10 => "a",
        11 => "b",
        12 => "c",
        13 => "d",
        14 => "e",
        _ => "f",
    }
}

/// Writes `bytes` as lowercase hex, two digits per byte.
pub fn lower_hex_text(bytes: &[u8]) -> (r: String)
    ensures
        r@ == lower_hex(bytes@),
{
    let mut text = String::new();
    let mut i: usize = 0;
    while i < bytes.len()
        invariant
            i <= bytes@.len(),
            text@ == lower_hex(bytes@.subrange(0, i as int)),
        decreases bytes@.len() - i,
    {
        let b = bytes[i];
        text.append(hex_digit_text(b / 16));
        text.append(hex_digit_text(b % 16));
        proof {
            let next = bytes@.subrange(0, i + 1);
            assert(next.drop_last() =~= bytes@.subrange(0, i as int));
            assert(next.last() == b);
        }
        i = i + 1;
    }
    assert(bytes@.subrange(0, bytes@.len() as int) =~= bytes@);
    text
}

fn append_field(text: &mut String, field: &Option<String>)
    ensures
        final(text)@ == old(text)@ + field_text(*field),
{
    match field {
        Some(value) => text.append(value.as_str()),
        None => {
            assert(old(text)@ + Seq::<char>::empty() =~= old(text)@);
        },
    }
}

/// The covered fields of `record` joined by `|`, absent ones as empty text.
pub fn covered_fields_text(record: &SubscriptionRecord) -> (r: String)
    ensures
        r@ == covered_text(*record),
{
    let mut text = String::from_str(record.plan_type.name());
    text.append("|");
    append_field(&mut text, &record.expires_at);
    text.append("|");
    append_field(&mut text, &record.stripe_customer_id);
    text.append("|");
    append_field(&mut text, &record.verification_token);
    text.append("|");
    append_field(&mut text, &record.purchased_at);
    text
}

/// The checksum that `record`'s covered fields call for; the stored checksum
/// itself is not covered.
pub fn calculate_subscription_checksum(record: &SubscriptionRecord) -> (r: String)
    ensures
        r@ == checksum_of(*record),
{
    let text = covered_fields_text(record);
    let digest = sha256_digest(text.as_str());
    lower_hex_text(digest.as_slice())
}

/// The integrity check given the checksum that the record's fields call for.
pub fn integrity_given_checksum(record: &SubscriptionRecord, expected: &String) -> (r: bool)
    ensures
        r == (record.plan_type == PlanType::Free || (record.checksum matches Some(c) && c@
            == expected@)),
{
    match record.plan_type {
        PlanType::Free => true,
        _ => match &record.checksum {
            Some(stored) => *stored == *expected,
            None => false,
        },
    }
}

/// Whether `record` passes the integrity check: a `Free` record always does;
/// any other needs a stored checksum equal to the recomputed one.
pub fn validate_subscription_integrity(record: &SubscriptionRecord) -> (r: bool)
    ensures
        r == integrity_holds(*record),
{
    match (record.plan_type, &record.checksum) {
        (PlanType::Free, _) => true,
        (_, None) => false,
        (_, Some(_)) => {
            let expected = calculate_subscription_checksum(record);
            integrity_given_checksum(record, &expected)
        },
    }
}

/// Builds a record from its fields with the checksum that they call for.
pub fn create_subscription_with_checksum(
    plan_type: PlanType,
    expires_at: Option<String>,
    stripe_customer_id: Option<String>,
    verification_token: Option<String>,
    purchased_at: Option<String>,
) -> (r: SubscriptionRecord)
    ensures
        r.plan_type == plan_type,
        r.expires_at == expires_at,
        r.stripe_customer_id == stripe_customer_id,
        r.verification_token == verification_token,
        r.purchased_at == purchased_at,
        r.checksum matches Some(c) && c@ == checksum_of(r),
        integrity_holds(r),
{
    let mut record = SubscriptionRecord {
        plan_type,
        expires_at,
        stripe_customer_id,
        verification_token,
        purchased_at,
        checksum: None,
    };
    let checksum = calculate_subscription_checksum(&record);
    record.checksum = Some(checksum);
    record
}

} // verus!
