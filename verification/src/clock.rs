//! Wall-clock time for log timestamps and connection uptime.  An instant is
//! held as milliseconds since the Unix epoch.
use vstd::prelude::*;
use crate::app::div_toward_zero;

verus! {

/// The instants chrono can represent, in milliseconds since the Unix epoch:
/// from `DateTime::<Utc>::MIN_UTC` (1 January 262144 BC) to `MAX_UTC`
/// (31 December 262142, last millisecond).
pub open spec fn representable_millis(ms: int) -> bool {
    earliest_millis() <= ms <= latest_millis()
}

/// A reading of the system clock: how many milliseconds after, or before,
/// the Unix epoch it stands.
pub enum ClockReading {
    After(u128),
    Before(u128),
}

/// `std::time::SystemTime::now().duration_since(UNIX_EPOCH)`, in
/// milliseconds, with the error (a clock set before 1970) turned into the
/// distance before the epoch.  What the clock reads is not promised.
#[verifier::external_body]
fn read_system_clock() -> ClockReading {
    match std::time::SystemTime::now().duration_since(std::time::UNIX_EPOCH) {
        Ok(d) => ClockReading::After(d.as_millis()),
        Err(e) => ClockReading::Before(e.duration().as_millis()),
    }
}

/// The earliest instant chrono can represent, in milliseconds.
pub open spec fn earliest_millis() -> int {
    -8334601315200000
}

/// The latest instant chrono can represent, in milliseconds.
pub open spec fn latest_millis() -> int {
    8210266876799999
}

/// The instant of a clock reading, held within the range chrono can
/// represent (a clock set beyond it reads as its nearest end).
pub open spec fn instant_of(r: ClockReading) -> int {
    match r {
        ClockReading::After(m) => if m > latest_millis() {
            latest_millis()
        } else {
            m as int
        },
        ClockReading::Before(m) => if m > -earliest_millis() {
            earliest_millis()
        } else {
            -(m as int)
        },
    }
}

/// The instant of a clock reading (see `instant_of`).
pub fn millis_of(r: ClockReading) -> (ms: i64)
    ensures
        ms == instant_of(r),
        representable_millis(ms as int),
{
    match r {
        ClockReading::After(m) => if m > 8210266876799999u128 {
            8210266876799999i64
        } else {
            m as i64
        },
        ClockReading::Before(m) => if m > 8334601315200000u128 {
            -8334601315200000i64
        } else {
            -(m as i64)
        },
    }
}

/// The current instant, from the system clock (see `millis_of`).
pub fn now_millis() -> (ms: i64)
    ensures
        representable_millis(ms as int),
{
    millis_of(read_system_clock())
}

/// The shape of a `%H:%M:%S%.3f` clock reading: two digits, colon, two
/// digits, colon, two digits, dot, three digits.
pub open spec fn is_clock_text(s: Seq<char>) -> bool {
    &&& s.len() == 12
    &&& s[2] == ':' && s[5] == ':' && s[8] == '.'
    &&& forall|i: int|
        0 <= i < 12 && i != 2 && i != 5 && i != 8 ==> '0' <= #[trigger] s[i] <= '9'
}

/// The instant `ms` in local time, formatted by chrono as `%H:%M:%S%.3f`.
/// The reading depends on the machine's time zone, so only its shape is
/// promised, as chrono documents each of the four fields.
#[verifier::external_body]
pub(crate) fn clock_text(ms: i64) -> (s: String)
    requires
        representable_millis(ms as int),
    ensures
        is_clock_text(s@),
{
    match chrono::DateTime::from_timestamp_millis(ms) {
        Some(t) => t.with_timezone(&chrono::Local).format("%H:%M:%S%.3f").to_string(),
        None => String::new(),
    }
}

/// Whole seconds from instant `since_ms` to instant `now_ms`, rounded
/// towards zero.
pub fn seconds_between(since_ms: i64, now_ms: i64) -> (e: i64)
    requires
        representable_millis(since_ms as int),
        representable_millis(now_ms as int),
    ensures
        e == div_toward_zero(now_ms - since_ms, 1000),
{
    let d = now_ms - since_ms;
    if d >= 0 {
        d / 1000
    } else {
        let a = (-d) / 1000;
        -a
    }
}

/// Whole seconds elapsed since the instant `since_ms`, by the system clock
/// now (see `seconds_between`).
pub fn elapsed_seconds(since_ms: i64) -> (e: i64)
    requires
        representable_millis(since_ms as int),
    ensures
        exists|now: i64|
            representable_millis(now as int) && e == div_toward_zero(now - since_ms, 1000),
{
    let now = now_millis();
    seconds_between(since_ms, now)
}

} // verus!
