//! Instants as Unix seconds plus nanoseconds, and their RFC 3339 text form.

use vstd::prelude::*;

verus! {

pub const NANOS_PER_SECOND: i128 = 1_000_000_000;

pub const NANOS_PER_DAY: i128 = 86_400_000_000_000;

/// Unix second of 0000-01-01T00:00:00Z, the first instant RFC 3339 can write.
pub const FIRST_TEXT_SECOND: i64 = -62_167_219_200;

/// Unix second of 9999-12-31T23:59:59Z, the last whole second RFC 3339 can write.
pub const LAST_TEXT_SECOND: i64 = 253_402_300_799;

/// An instant: whole seconds since the Unix epoch and nanoseconds past them.
/// The nanoseconds may exceed a second only to stand for a leap second.
#[derive(Clone, Copy, Debug, PartialEq, Eq)]
pub struct Timestamp {
    pub secs: i64,
    pub nanos: u32,
}

impl View for Timestamp {
    type V = int;

    /// Nanoseconds since the Unix epoch.
    open spec fn view(&self) -> int {
        self.secs * NANOS_PER_SECOND + self.nanos
    }
}

/// Whether `t` (nanoseconds since the epoch) lies in the span that RFC 3339
/// text can hold: years 0 to 9999.
pub open spec fn in_text_span(t: int) -> bool {
    FIRST_TEXT_SECOND * NANOS_PER_SECOND <= t < (LAST_TEXT_SECOND + 1) * NANOS_PER_SECOND
}

/// Every instant lies within the span that its seconds and nanoseconds can
/// reach.
pub proof fn lemma_instant_bounds(t: Timestamp)
    ensures
        i64::MIN as int * NANOS_PER_SECOND <= t@ <= i64::MAX as int * NANOS_PER_SECOND + u32::MAX,
{
    assert(i64::MIN as int * NANOS_PER_SECOND <= t.secs * NANOS_PER_SECOND <= i64::MAX as int
        * NANOS_PER_SECOND) by (nonlinear_arith)
        requires
            i64::MIN <= t.secs <= i64::MAX,
    ;
}

impl Timestamp {
    /// Nanoseconds since the Unix epoch.
    pub fn total_nanos(&self) -> (r: i128)
        ensures
            r == self@,
    {
        self.secs as i128 * NANOS_PER_SECOND + self.nanos as i128
    }

    /// The instant `total` nanoseconds after the epoch, with fewer than a
    /// second of nanoseconds.
    pub fn from_total_nanos(total: i128) -> (r: Timestamp)
        requires
            in_text_span(total as int),
        ensures
            r@ == total,
            r.nanos < NANOS_PER_SECOND,
            FIRST_TEXT_SECOND <= r.secs <= LAST_TEXT_SECOND,
    {
        let shifted: i128 = total - FIRST_TEXT_SECOND as i128 * NANOS_PER_SECOND;
        let whole: i128 = shifted / NANOS_PER_SECOND;
        let rest: i128 = shifted % NANOS_PER_SECOND;
        assert(whole <= LAST_TEXT_SECOND - FIRST_TEXT_SECOND);
        Timestamp { secs: (whole + FIRST_TEXT_SECOND as i128) as i64, nanos: rest as u32 }
    }
}

/// What chrono's RFC 3339 parser reads from `text`: Unix seconds and the
/// nanoseconds past them, or `None` where it rejects the text.
pub uninterp spec fn rfc3339_instant(text: Seq<char>) -> Option<(i64, u32)>;

/// The RFC 3339 text that chrono writes for a UTC instant.
pub uninterp spec fn rfc3339_text(secs: i64, nanos: u32) -> Seq<char>;

/// Relies on chrono's `DateTime::parse_from_rfc3339`, read back through
/// `DateTime::timestamp` and `DateTime::timestamp_subsec_nanos`.
#[verifier::external_body]
fn parse_rfc3339_parts(text: &str) -> (r: Option<(i64, u32)>)
    ensures
        r == rfc3339_instant(text@),
{
    match chrono::DateTime::parse_from_rfc3339(text) {
        Ok(d) => Some((d.timestamp(), d.timestamp_subsec_nanos())),
        Err(_) => None,
    }
}

/// Relies on chrono's `DateTime::<Utc>::from_timestamp` and
/// `DateTime::to_rfc3339`. `from_timestamp` accepts every second of the
/// years 0 to 9999 with under a second of nanoseconds; for such an instant
/// `to_rfc3339` writes the four-digit year, the exact fraction and `+00:00`,
/// which `parse_from_rfc3339` reads back to the same seconds and nanoseconds.
#[verifier::external_body]
fn format_rfc3339_parts(secs: i64, nanos: u32) -> (r: Option<String>)
    ensures
        r matches Some(t) ==> t@ == rfc3339_text(secs, nanos),
        r is None ==> !(FIRST_TEXT_SECOND <= secs <= LAST_TEXT_SECOND && nanos < NANOS_PER_SECOND),
        r is Some && FIRST_TEXT_SECOND <= secs <= LAST_TEXT_SECOND && nanos < NANOS_PER_SECOND
            ==> rfc3339_instant(r->0@) == Some((secs, nanos)),
{
    match chrono::DateTime::from_timestamp(secs, nanos) {
        Some(d) => Some(d.to_rfc3339()),
        None => None,
    }
}

/// The instant that `text` reads as, if it is RFC 3339.
pub open spec fn text_instant(text: Seq<char>) -> Option<int> {
    match rfc3339_instant(text) {
        Some(parts) => Some(parts.0 * NANOS_PER_SECOND + parts.1),
        None => None,
    }
}

/// The instant that the optional text reads as; `None` where it is absent
/// or not RFC 3339.
pub open spec fn field_instant(field: Option<String>) -> Option<int> {
    match field {
        Some(text) => text_instant(text@),
        None => None,
    }
}

/// The RFC 3339 text of an instant of the text span.
pub open spec fn instant_text(t: int) -> Seq<char> {
    rfc3339_text(
        (t / NANOS_PER_SECOND as int) as i64,
        (t % NANOS_PER_SECOND as int) as u32,
    )
}

/// Reads an RFC 3339 date and time with any offset; `None` where `text` is
/// not one.
pub fn parse_rfc3339(text: &str) -> (r: Option<Timestamp>)
    ensures
        r == match rfc3339_instant(text@) {
            Some(parts) => Some((Timestamp { secs: parts.0, nanos: parts.1 })),
            None => None::<Timestamp>,
        },
        r matches Some(t) ==> text_instant(text@) == Some(t@),
        r is None <==> text_instant(text@) is None,
{
    match parse_rfc3339_parts(text) {
        Some(parts) => Some(Timestamp { secs: parts.0, nanos: parts.1 }),
        None => None,
    }
}

/// Writes `t` as RFC 3339 text in UTC; the text reads back as `t`.
pub fn format_rfc3339(t: Timestamp) -> (r: String)
    requires
        in_text_span(t@),
    ensures
        r@ == instant_text(t@),
        text_instant(r@) == Some(t@),
{
    let normal = Timestamp::from_total_nanos(t.total_nanos());
    assert(normal.secs == t@ / NANOS_PER_SECOND as int && normal.nanos == t@ % NANOS_PER_SECOND as int)
        by (nonlinear_arith)
        requires
            normal@ == t@,
            0 <= normal.nanos < NANOS_PER_SECOND,
    ;
    match format_rfc3339_parts(normal.secs, normal.nanos) {
        Some(text) => text,
        None => String::new(),
    }
}

} // verus!
