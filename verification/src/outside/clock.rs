//! The time of day, by chrono.

use crate::outside::returned;
use vstd::prelude::*;

verus! {

/// The last second that chrono can represent, since the Unix epoch.
pub const LAST_SECOND: i64 = 8_210_266_876_799;

/// The first second that chrono can represent, since the Unix epoch.
pub const FIRST_SECOND: i64 = -8_334_601_228_800;

/// The seconds of a time in microseconds.
pub open spec fn seconds(micros: i64) -> int {
    micros as int / 1_000_000
}

/// A time that the clock can show: not before the Unix epoch, and one that
/// chrono can represent.
pub open spec fn shown(micros: i64) -> bool {
    0 <= micros && seconds(micros) <= LAST_SECOND
}

/// Calls `chrono::Utc::now` and gives the time in microseconds since the Unix
/// epoch. The time is whatever the clock shows; a clock that is set before the
/// epoch makes `chrono` panic.
#[verifier::external_body]
pub(crate) fn now_micros() -> (r: i64)
    ensures
        shown(r),
{
    chrono::Utc::now().timestamp_micros()
}

/// Whether a time is one that the clock gave: one that a call of [`now_micros`] may
/// have returned.
pub closed spec fn clocked(micros: i64) -> bool {
    call_ensures(now_micros, (), micros)
}

/// A time that the clock gave is one that it can show.
pub proof fn clocked_is_shown(micros: i64)
    requires
        clocked(micros),
    ensures
        shown(micros),
{
}

/// The clock gives what [`now_micros`] returns, and nothing else.
pub(crate) proof fn clocked_is_returned(micros: i64)
    ensures
        clocked(micros) <==> call_ensures(now_micros, (), micros),
{
}

/// Reads the clock.
pub(crate) fn read_clock() -> (r: i64)
    ensures
        clocked(r),
        shown(r),
{
    returned(now_micros)
}

} // verus!
