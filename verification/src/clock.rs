//! The current UTC time as RFC 3339 text, read without any path that panics.

use vstd::prelude::*;

verus! {

#[verifier::external_type_specification]
#[verifier::external_body]
pub struct ExSystemTime(std::time::SystemTime);

/// The RFC 3339 text of the UTC instant `secs` seconds and `nanos`
/// nanoseconds after 1970-01-01T00:00:00Z, or none where that instant is out
/// of range; the text that `chrono` writes for it.
pub uninterp spec fn rfc3339_of(secs: i64, nanos: u32) -> Option<Seq<char>>;

/// The system clock, through `std::time::SystemTime::now`. The time is not
/// described.
#[verifier::external_body]
fn system_now() -> (t: std::time::SystemTime) {
    std::time::SystemTime::now()
}

/// The time elapsed since the Unix epoch, through
/// `std::time::SystemTime::duration_since(UNIX_EPOCH)`; none where `t` lies
/// before the epoch. Nothing is stated of the duration.
#[verifier::external_body]
fn since_epoch(t: &std::time::SystemTime) -> (d: Option<core::time::Duration>) {
    t.duration_since(std::time::UNIX_EPOCH).ok()
}

/// The whole seconds of `d`, through `Duration::as_secs`. The duration is
/// opaque here; nothing is stated of the number.
#[verifier::external_body]
fn whole_seconds(d: &core::time::Duration) -> (s: u64) {
    d.as_secs()
}

/// The fractional part of `d` in nanoseconds, through
/// `Duration::subsec_nanos`, which its documentation says is always less
/// than one billion.
#[verifier::external_body]
fn subsec_nanos(d: &core::time::Duration) -> (n: u32)
    ensures
        n < 1_000_000_000,
{
    d.subsec_nanos()
}

/// The RFC 3339 text of an instant, through `chrono::DateTime::from_timestamp`
/// (none on an out-of-range instant) and `DateTime::to_rfc3339`. `chrono`'s
/// time types cannot be declared here, so the two calls stand together; the
/// text depends on the arguments alone and is named by `rfc3339_of`.
#[verifier::external_body]
fn rfc3339_at(secs: i64, nanos: u32) -> (r: Option<String>)
    ensures
        match r {
            Some(s) => rfc3339_of(secs, nanos) == Some(s@),
            None => rfc3339_of(secs, nanos) is None,
        },
{
    chrono::DateTime::from_timestamp(secs, nanos).map(|t| t.to_rfc3339())
}

/// The current UTC time in RFC 3339 form, or none where the system clock
/// reads before 1970 or beyond what can be written. The time is not
/// described; what is stated is that a text that comes back is that of some
/// instant with a valid fraction of a second.
pub fn now_rfc3339() -> (r: Option<String>)
    ensures
        r matches Some(s) ==> exists|secs: i64, nanos: u32|
            nanos < 1_000_000_000 && #[trigger] rfc3339_of(secs, nanos) == Some(s@),
{
    let t = system_now();
    let d = match since_epoch(&t) {
        Some(d) => d,
        None => {
            return None;
        },
    };
    let secs: u64 = whole_seconds(&d);
    let nanos: u32 = subsec_nanos(&d);
    rfc3339_from_parts(secs, nanos)
}

/// The RFC 3339 text of the instant `secs` seconds and `nanos` nanoseconds
/// after the Unix epoch: none where `secs` exceeds what a signed 64-bit count
/// holds, else the text of that instant as `chrono` writes it (none where
/// the instant is out of `chrono`'s range).
pub fn rfc3339_from_parts(secs: u64, nanos: u32) -> (r: Option<String>)
    ensures
        secs > i64::MAX ==> r is None,
        secs <= i64::MAX ==> match r {
            Some(s) => rfc3339_of(secs as i64, nanos) == Some(s@),
            None => rfc3339_of(secs as i64, nanos) is None,
        },
{
    if secs > 0x7fff_ffff_ffff_ffff {
        return None;
    }
    rfc3339_at(secs as i64, nanos)
}

} // verus!
