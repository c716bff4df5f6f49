//! Fresh record ids and the current time, as the store writes them.

use vstd::prelude::*;

verus! {

/// A version-4 UUID as text, in the hyphenated form (36 characters): sixteen
/// bytes drawn with `rand_core`'s `OsRng::try_fill_bytes`, made an id by
/// `uuid`'s `Builder::from_random_bytes`. When the operating system's random
/// source fails, its error comes back instead. Which id is drawn is chance,
/// so nothing more is stated of it.
#[verifier::external_body]
pub(crate) fn new_record_id() -> (r: Result<String, std::io::Error>)
    ensures
        r matches Ok(s) ==> s@.len() == 36,
{
    let mut bytes = [0u8; 16];
    match rand_core::RngCore::try_fill_bytes(&mut rand_core::OsRng, &mut bytes) {
        Ok(()) => Ok(uuid::Builder::from_random_bytes(bytes).into_uuid().to_string()),
        Err(e) => Err(std::io::Error::new(std::io::ErrorKind::Other, e.to_string())),
    }
}

/// The time-stamp patterns the store and the reports use.
pub open spec fn known_pattern(p: Seq<char>) -> bool {
    p == "%Y-%m-%d %H:%M:%S%.f"@ || p == "%Y-%m-%d %H:%M:%S UTC"@ || p == "%Y%m%d_%H%M%S"@
}

/// The wall clock as seconds and nanoseconds since the Unix epoch (std's
/// `SystemTime::now()` measured with `duration_since(UNIX_EPOCH)`); `None`
/// when the clock reads before 1970. It depends on the clock, so nothing is
/// stated of it.
#[verifier::external_body]
pub(crate) fn system_clock() -> (r: Option<(u64, u32)>) {
    match std::time::SystemTime::now().duration_since(std::time::UNIX_EPOCH) {
        Ok(d) => Some((d.as_secs(), d.subsec_nanos())),
        Err(_) => None,
    }
}

/// `chrono`'s `DateTime::<Utc>::from_timestamp(secs, nanos)` written with
/// `format(pattern)`; `None` when the instant is out of chrono's range. The
/// text is chrono's rendering, so nothing more is stated of it.
#[verifier::external_body]
fn utc_text(secs: i64, nanos: u32, pattern: &str) -> (r: Option<String>)
    requires
        known_pattern(pattern@),
{
    chrono::DateTime::from_timestamp(secs, nanos).map(|t| t.format(pattern).to_string())
}

/// The current UTC time written with `pattern`, or an error when the clock
/// reads before 1970 or out of the range of dates.
fn utc_clock_text(pattern: &str) -> (r: Result<String, std::io::Error>)
    requires
        known_pattern(pattern@),
{
    let (secs, nanos) = match system_clock() {
        Some(p) => p,
        None => return Err(clock_error()),
    };
    if secs > i64::MAX as u64 {
        return Err(clock_error());
    }
    match utc_text(secs as i64, nanos, pattern) {
        Some(t) => Ok(t),
        None => Err(clock_error()),
    }
}

/// The error of a clock that cannot be read as a date (std's
/// `io::Error::new` of kind `Other`).
#[verifier::external_body]
fn clock_error() -> (r: std::io::Error) {
    std::io::Error::new(std::io::ErrorKind::Other, "clock out of range")
}

/// The current time as the store writes it (`%Y-%m-%d %H:%M:%S%.f`, UTC).
pub(crate) fn now_text() -> (r: Result<String, std::io::Error>) {
    utc_clock_text("%Y-%m-%d %H:%M:%S%.f")
}

/// The current time as a report is stamped (`%Y-%m-%d %H:%M:%S UTC`).
pub(crate) fn report_timestamp() -> (r: Result<String, std::io::Error>) {
    utc_clock_text("%Y-%m-%d %H:%M:%S UTC")
}

/// The current time as a report's file name carries it (`%Y%m%d_%H%M%S`).
pub(crate) fn file_timestamp() -> (r: Result<String, std::io::Error>) {
    utc_clock_text("%Y%m%d_%H%M%S")
}

} // verus!
