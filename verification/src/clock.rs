//! Instants of UTC time as plain values, read from and rendered by `chrono`.
use vstd::prelude::*;

verus! {

/// The largest Unix timestamp `chrono` represents (the last second of
/// 31 December 262142).
pub open spec fn max_timestamp() -> int {
    8_210_266_876_799
}

/// An instant after the Unix epoch: whole seconds and the nanoseconds
/// within the second.
#[derive(Clone, Copy, Debug, PartialEq, Eq)]
pub struct UtcInstant {
    pub secs: i64,
    pub nanos: u32,
}

/// An instant that `chrono` represents and that the system clock can give.
pub open spec fn instant_in_range(t: UtcInstant) -> bool {
    &&& 0 <= t.secs <= max_timestamp()
    &&& t.nanos < 1_000_000_000
}

/// The text `DateTime::<Utc>::to_rfc3339` writes for an instant.
pub uninterp spec fn rfc3339_text(secs: i64, nanos: u32) -> Seq<char>;

/// The text `format("%d-%m-%Y")` writes for an instant.
pub uninterp spec fn dmy_text(secs: i64, nanos: u32) -> Seq<char>;

/// `chrono::Utc::now`, as seconds and nanoseconds; it reads the system
/// clock, so only its range is known.
#[verifier::external_body]
fn utc_now() -> (t: UtcInstant)
    ensures
        instant_in_range(t),
{
    let now = chrono::Utc::now();
    UtcInstant { secs: now.timestamp(), nanos: now.timestamp_subsec_nanos() }
}

/// `DateTime::<Utc>::to_rfc3339` of an instant.
#[verifier::external_body]
pub(crate) fn instant_rfc3339(t: &UtcInstant) -> (r: String)
    requires
        instant_in_range(*t),
    ensures
        r@ == rfc3339_text(t.secs, t.nanos),
{
    chrono::DateTime::from_timestamp(t.secs, t.nanos).unwrap().to_rfc3339()
}

/// `DateTime::<Utc>::format("%d-%m-%Y")` of an instant.
#[verifier::external_body]
pub(crate) fn instant_dmy(t: &UtcInstant) -> (r: String)
    requires
        instant_in_range(*t),
    ensures
        r@ == dmy_text(t.secs, t.nanos),
{
    chrono::DateTime::from_timestamp(t.secs, t.nanos).unwrap().format("%d-%m-%Y").to_string()
}

/// The current instant.
pub fn now() -> (t: UtcInstant)
    ensures
        instant_in_range(t),
{
    utc_now()
}

/// `Utc::now().to_rfc3339()`: the current instant's text.
pub fn now_rfc3339() -> (r: String)
    ensures
        exists|t: UtcInstant| instant_in_range(t) && r@ == rfc3339_text(t.secs, t.nanos),
{
    let t = utc_now();
    instant_rfc3339(&t)
}

} // verus!
