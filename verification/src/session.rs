//! Session tokens: how long a login lasts and what its claims hold.

use vstd::prelude::*;
use crate::models::Claims;

verus! {

/// How long a session lasts: twenty-four hours, in seconds.
pub const SESSION_SECONDS: i64 = 86400;

/// The last second that a `chrono::DateTime<Utc>` can hold (31 December of
/// the year 262142); adding time past it fails.
pub const LAST_REPRESENTABLE_SECOND: i64 = 8210266876799;

/// The key that signs and checks session tokens.
pub fn jwt_secret() -> (s: &'static str)
    ensures
        s@ == "secreto_super_seguro"@,
{
    "secreto_super_seguro"
}

/// `std::time::SystemTime::now().duration_since(UNIX_EPOCH)`, as whole
/// seconds and the nanoseconds past them; `None` when the clock reads
/// earlier than the epoch. `Duration` keeps its nanoseconds below one
/// second. Which time comes back depends on the clock and is left unsaid.
#[verifier::external_body]
pub(crate) fn system_time_since_epoch() -> (r: Option<(u64, u32)>)
    ensures
        r matches Some(d) ==> d.1 < 1_000_000_000,
{
    match std::time::SystemTime::now().duration_since(std::time::UNIX_EPOCH) {
        Ok(d) => Some((d.as_secs(), d.subsec_nanos())),
        Err(_) => None,
    }
}

/// `chrono::DateTime::<Utc>::from_timestamp(secs, nanos)` read back with
/// `timestamp()`: a time between the epoch and the last second `chrono`
/// can hold, with fewer than a second of nanoseconds, is accepted and gives
/// back its seconds; any accepted time gives back its seconds, which are at
/// most that last second.
#[verifier::external_body]
pub(crate) fn chrono_utc_timestamp(secs: i64, nanos: u32) -> (r: Option<i64>)
    ensures
        0 <= secs <= LAST_REPRESENTABLE_SECOND && nanos < 1_000_000_000 ==> r == Some(secs),
        r matches Some(t) ==> t == secs && t <= LAST_REPRESENTABLE_SECOND,
{
    match chrono::DateTime::from_timestamp(secs, nanos) {
        Some(d) => Some(d.timestamp()),
        None => None,
    }
}

/// The time in whole seconds of a clock reading taken since the epoch:
/// nothing for a clock before the epoch, the seconds when they are at most
/// the last second `chrono` can hold, nothing past it.
pub open spec fn timestamp_of(reading: Option<(u64, u32)>) -> Option<i64> {
    match reading {
        None => None,
        Some(d) => if d.0 <= LAST_REPRESENTABLE_SECOND {
            Some(d.0 as i64)
        } else {
            None
        },
    }
}

/// The time in whole seconds of a clock reading (seconds and nanoseconds
/// since the epoch), made a `chrono` time as `chrono::Utc::now()` makes it;
/// `None` where `Utc::now()` would panic.
pub fn timestamp_of_reading(reading: Option<(u64, u32)>) -> (t: Option<i64>)
    ensures
        match reading {
            None => t is None,
            Some(d) => {
                &&& d.1 < 1_000_000_000 ==> t == timestamp_of(reading)
                &&& t matches Some(x) ==> x == d.0 && 0 <= x <= LAST_REPRESENTABLE_SECOND
            },
        },
{
    let (secs, nanos) = match reading {
        Some(d) => d,
        None => return None,
    };
    if secs > 9223372036854775807u64 {
        return None;
    }
    chrono_utc_timestamp(secs as i64, nanos)
}

/// The current time in whole seconds since the Unix epoch, read as
/// `chrono::Utc::now()` reads it, with its two failures handed back as
/// `None` where `Utc::now()` panics: a clock before 1970, or one past the
/// last time `chrono` can hold. On a normal return the time lies between
/// the epoch and that last second; which time it is depends on the clock.
pub fn utc_now_timestamp() -> (t: Option<i64>)
    ensures
        t matches Some(s) ==> 0 <= s <= LAST_REPRESENTABLE_SECOND,
        exists|reading: Option<(u64, u32)>| t == #[trigger] timestamp_of(reading),
{
    let reading = system_time_since_epoch();
    let t = timestamp_of_reading(reading);
    assert(t == timestamp_of(reading));
    t
}

/// Whether a session can start at `now`: one day later is still a time
/// that `chrono` can represent.
pub open spec fn session_fits(now: i64) -> bool {
    now + SESSION_SECONDS <= LAST_REPRESENTABLE_SECOND
}

/// The claims of a session for `user_id` that starts at `now`: it expires
/// one day later, the timestamp cast to `usize` as the token stores it.
pub fn session_claims(user_id: i32, now: i64) -> (c: Claims)
    requires
        session_fits(now),
    ensures
        c.sub == user_id,
        c.exp == (now + SESSION_SECONDS) as usize,
{
    let expiration: i64 = now + SESSION_SECONDS;
    Claims { sub: user_id, exp: expiration as usize }
}

/// The session for `user_id` that starts at `now`: none when one day later
/// is past the last time `chrono` can represent.
pub open spec fn session_at_time(user_id: i32, now: i64) -> Option<Claims> {
    if session_fits(now) {
        Some(Claims { sub: user_id, exp: (now + SESSION_SECONDS) as usize })
    } else {
        None
    }
}

/// The session for `user_id` that starts at the clock reading `now`.
pub fn session_at(user_id: i32, now: i64) -> (r: Option<Claims>)
    ensures
        r == session_at_time(user_id, now),
{
    if now <= LAST_REPRESENTABLE_SECOND - SESSION_SECONDS {
        Some(session_claims(user_id, now))
    } else {
        None
    }
}

/// A session for `user_id` that starts now, with the clock reading it
/// starts at: no session when the clock cannot be read (before 1970 or
/// past what `chrono` can hold), else the session at that reading.
pub fn clocked_session(user_id: i32) -> (r: (Option<i64>, Option<Claims>))
    ensures
        r.0 matches Some(now) ==> 0 <= now <= LAST_REPRESENTABLE_SECOND,
        r.1 == (match r.0 {
            Some(now) => session_at_time(user_id, now),
            None => None,
        }),
{
    match utc_now_timestamp() {
        Some(now) => (Some(now), session_at(user_id, now)),
        None => (None, None),
    }
}

/// The claims of a session for `user_id` that starts now; `None` when the
/// clock cannot be read (before 1970 or past what `chrono` can hold) or
/// stands within a day of the last time `chrono` can represent.
pub fn start_session(user_id: i32) -> (r: Option<Claims>)
    ensures
        r matches Some(c) ==> c.sub == user_id && exists|now: i64|
            0 <= now && #[trigger] session_fits(now) && c.exp == (now + SESSION_SECONDS) as usize,
        exists|now: i64| 0 <= now && r == #[trigger] session_at_time(user_id, now),
{
    let (reading, r) = clocked_session(user_id);
    match reading {
        Some(now) => {
            assert(0 <= now && r == session_at_time(user_id, now));
            if let Some(c) = r {
                assert(0 <= now && session_fits(now) && c.exp == (now + SESSION_SECONDS) as usize);
            }
        },
        None => {
            assert(0 <= i64::MAX && session_at_time(user_id, i64::MAX) == None::<Claims>);
        },
    }
    r
}

} // verus!
