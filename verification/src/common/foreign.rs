//! Outside types that the library carries through, and the clock and identifier sources.
//! Instants are held as milliseconds since the Unix epoch.

use vstd::prelude::*;

verus! {

#[verifier::external_type_specification]
#[verifier::external_body]
pub struct ExUuid(uuid::Uuid);

#[verifier::external_type_specification]
#[verifier::external_body]
pub struct ExJsonValue(serde_json::Value);

#[verifier::external_type_specification]
#[verifier::external_body]
pub struct ExJsonError(serde_json::Error);

#[verifier::external_type_specification]
#[verifier::external_body]
pub struct ExIoError(std::io::Error);

/// `uuid::Uuid::new_v4`: a random identifier; nothing is claimed of the value.
#[verifier::external_body]
pub(crate) fn new_uuid() -> (r: uuid::Uuid) {
    uuid::Uuid::new_v4()
}

/// The hyphenated lower-case text of an identifier.
pub uninterp spec fn uuid_text(u: uuid::Uuid) -> Seq<char>;

/// `Uuid::to_string`: the hyphenated lower-case form (`Display` writes `LowerHex`, the
/// hyphenated form of 36 characters).
#[verifier::external_body]
pub(crate) fn uuid_to_string(u: &uuid::Uuid) -> (r: String)
    ensures
        r@ == uuid_text(*u),
        r@.len() == 36,
{
    u.to_string()
}

/// The final component of a path, where it has one.
pub uninterp spec fn path_file_name(path: Seq<char>) -> Option<Seq<char>>;

/// `std::path::Path::file_name` on `path`, the component turned into text.
#[verifier::external_body]
pub(crate) fn file_name_of(path: &str) -> (r: Option<String>)
    ensures
        r is Some == path_file_name(path@) is Some,
        r matches Some(n) ==> path_file_name(path@) == Some(n@),
{
    match std::path::Path::new(path).file_name() {
        Some(s) => Some(s.to_string_lossy().to_string()),
        None => None,
    }
}

#[verifier::external_type_specification]
#[verifier::external_body]
pub struct ExSystemTime(std::time::SystemTime);

#[verifier::external_type_specification]
#[verifier::external_body]
pub struct ExSystemTimeError(std::time::SystemTimeError);

/// `SystemTime::now`: the system clock's reading; nothing is claimed of it.
#[verifier::external_body]
fn system_time_now() -> (r: std::time::SystemTime) {
    std::time::SystemTime::now()
}

/// `SystemTime::duration_since(UNIX_EPOCH)`: the time since the epoch, or an error for an
/// instant before it (it does not panic); nothing is claimed of which.
#[verifier::external_body]
fn duration_since_epoch(t: &std::time::SystemTime) -> (r: Result<std::time::Duration, std::time::SystemTimeError>) {
    t.duration_since(std::time::UNIX_EPOCH)
}

/// `SystemTimeError::duration`: how far before the epoch the instant lay.
#[verifier::external_body]
fn time_error_duration(e: &std::time::SystemTimeError) -> (r: std::time::Duration) {
    e.duration()
}

/// `Duration::as_millis`: the whole milliseconds of a duration.
#[verifier::external_body]
fn duration_as_millis(d: &std::time::Duration) -> (r: u128) {
    d.as_millis()
}

/// `Duration::as_secs`: the whole seconds of a duration.
#[verifier::external_body]
fn duration_as_secs(d: &std::time::Duration) -> (r: u64) {
    d.as_secs()
}

/// A count of time units taken as a signed 64-bit value, counts beyond its range
/// saturating at `i64::MAX`.
fn saturate_i64(n: u128) -> (r: i64)
    ensures
        r == (if n <= i64::MAX { n as int } else { i64::MAX as int }),
{
    if n <= i64::MAX as u128 {
        n as i64
    } else {
        i64::MAX
    }
}

/// The signed offset of the system clock from the Unix epoch, in milliseconds where `millis`
/// holds and in seconds otherwise: positive after the epoch, negative before it, saturating
/// at `i64::MAX` units either way. Reading the clock never panics.
fn clock_offset(millis: bool) -> (r: i64)
    ensures
        r >= -i64::MAX,
{
    let now = system_time_now();
    match duration_since_epoch(&now) {
        Ok(d) => {
            let n: u128 = if millis {
                duration_as_millis(&d)
            } else {
                duration_as_secs(&d) as u128
            };
            saturate_i64(n)
        },
        Err(e) => {
            let back = time_error_duration(&e);
            let n: u128 = if millis {
                duration_as_millis(&back)
            } else {
                duration_as_secs(&back) as u128
            };
            -saturate_i64(n)
        },
    }
}

/// Seconds since the Unix epoch, negative before it, as the system clock reads; depends on
/// the clock.
pub(crate) fn unix_now_secs() -> (r: i64)
    ensures
        r >= -i64::MAX,
{
    clock_offset(false)
}

/// Milliseconds since the Unix epoch, negative before it, as the system clock reads; depends
/// on the clock.
pub(crate) fn unix_now_millis() -> (r: i64)
    ensures
        r >= -i64::MAX,
{
    clock_offset(true)
}

/// Milliseconds since the Unix epoch as an unsigned count; an instant before the epoch counts
/// as zero. Whatever the clock reads, the count is that of a signed 64-bit reading.
pub(crate) fn now_millis() -> (r: u64)
    ensures
        r <= i64::MAX,
{
    let t = unix_now_millis();
    if t < 0 {
        0
    } else {
        t as u64
    }
}

/// Seconds since the Unix epoch as an unsigned count; an instant before the epoch counts as
/// zero. Whatever the clock reads, the count is that of a signed 64-bit reading.
pub(crate) fn now_secs() -> (r: u64)
    ensures
        r <= i64::MAX,
{
    let t = unix_now_secs();
    if t < 0 {
        0
    } else {
        t as u64
    }
}

/// The duration of `ms` milliseconds, as `std::time::Duration::from_millis` builds it.
pub uninterp spec fn millis_duration(ms: u64) -> std::time::Duration;

/// `std::time::Duration::from_millis`.
#[verifier::external_body]
pub(crate) fn duration_from_millis(ms: u64) -> (r: std::time::Duration)
    ensures
        r == millis_duration(ms),
{
    std::time::Duration::from_millis(ms)
}

/// `serde_json::Value::clone`: an equal value (the derived clone copies the tree).
#[verifier::external_body]
pub(crate) fn clone_json_value(v: &serde_json::Value) -> (r: serde_json::Value)
    ensures
        r == *v,
{
    v.clone()
}

} // verus!
