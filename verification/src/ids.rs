//! Identifiers: random UUIDs and client session ids.
use crate::text::{decimal, decimal_string};
use std::time::{Duration, SystemTime, SystemTimeError, UNIX_EPOCH};
use vstd::prelude::*;

verus! {

/// A lower-case hexadecimal digit.
pub open spec fn is_lower_hex(c: char) -> bool {
    ('0' <= c && c <= '9') || ('a' <= c && c <= 'f')
}

/// The hyphenated lower-case text of a version-4 UUID:
/// `xxxxxxxx-xxxx-4xxx-yxxx-xxxxxxxxxxxx` with `y` one of `8`, `9`, `a`, `b`.
pub open spec fn is_v4_uuid_text(s: Seq<char>) -> bool {
    &&& s.len() == 36
    &&& forall|i: int|
        0 <= i < 36 ==> if i == 8 || i == 13 || i == 18 || i == 23 {
            s[i] == '-'
        } else {
            is_lower_hex(s[i])
        }
    &&& s[14] == '4'
    &&& (s[19] == '8' || s[19] == '9' || s[19] == 'a' || s[19] == 'b')
}

/// A fresh random UUID (`uuid::Uuid::new_v4`) in its `Display` form. The
/// value is random; the contract states the shape that every outcome has
/// (uuid's `format_hyphenated` with lower-case digits, version and variant
/// bits set by `new_v4`).
#[verifier::external_body]
pub(crate) fn fresh_uuid() -> (r: String)
    ensures
        is_v4_uuid_text(r@),
{
    uuid::Uuid::new_v4().to_string()
}

/// Declares `std::time::SystemTime`, a reading of the system clock.
#[verifier::external_type_specification]
#[verifier::external_body]
pub struct ExSystemTime(SystemTime);

/// Declares `std::time::SystemTimeError`, the error of a clock reading that
/// lies before the reference point.
#[verifier::external_type_specification]
#[verifier::external_body]
pub struct ExSystemTimeError(SystemTimeError);

/// Reads the system clock (`SystemTime::now`). The value depends on the
/// clock; no clause states it.
#[verifier::external_body]
fn clock_now() -> SystemTime {
    SystemTime::now()
}

/// The time elapsed from the Unix epoch to a clock reading
/// (`SystemTime::duration_since` with `UNIX_EPOCH`); an error when the
/// reading lies before the epoch. The outcome depends on the reading, which
/// comes from the clock; no clause states it.
#[verifier::external_body]
fn since_unix_epoch(t: &SystemTime) -> Result<Duration, SystemTimeError> {
    t.duration_since(UNIX_EPOCH)
}

/// Milliseconds since the Unix epoch on the system clock; zero when the
/// clock reads earlier than the epoch.
fn unix_time_millis() -> u128 {
    let now = clock_now();
    match since_unix_epoch(&now) {
        Ok(d) => d.as_millis(),
        Err(_) => {
            let zero = Duration::from_secs(0);
            zero.as_millis()
        },
    }
}

/// The text of a client session id: `client-{timestamp_ms}-{suffix}`.
pub open spec fn session_id_text(timestamp_ms: nat, suffix: Seq<char>) -> Seq<char> {
    "client-"@ + decimal(timestamp_ms) + "-"@ + suffix
}

/// The client session id made of a timestamp and the first six characters
/// of a random token.
pub fn client_session_id_from(timestamp_ms: u128, token: &str) -> (r: String)
    requires
        token@.len() >= 6,
    ensures
        r@ == session_id_text(timestamp_ms as nat, token@.subrange(0, 6)),
{
    let digits = decimal_string(timestamp_ms);
    let suffix = token.substring_char(0, 6);
    let mut r = "client-".to_string();
    r.append(digits.as_str());
    r.append("-");
    r.append(suffix);
    r
}

/// Generate a unique client session id for stdiobus routing:
/// `client-{timestamp_ms}-{random_suffix}`, the suffix being the first six
/// characters of a fresh UUID.
pub fn generate_client_session_id() -> (r: String)
    ensures
        exists|ts: nat, u: Seq<char>|
            is_v4_uuid_text(u) && r@ == session_id_text(ts, u.subrange(0, 6)),
{
    let ts = unix_time_millis();
    let u = fresh_uuid();
    let r = client_session_id_from(ts, u.as_str());
    assert(is_v4_uuid_text(u@) && r@ == session_id_text(ts as nat, u@.subrange(0, 6)));
    r
}

} // verus!
