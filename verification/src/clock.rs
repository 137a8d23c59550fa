//! The wall clock, behind trusted wrappers.
//!
//! Every function whose outcome depends on the clock also exists in a
//! variant that takes the moment as an argument; those variants carry the
//! exact contracts.  The wrappers here only hand the current moment over.

use crate::dates::Date;
use chrono::Datelike;
use vstd::prelude::*;

verus! {

/// Relies on chrono: `Local::now().date_naive()` is today's calendar date in
/// the local time zone, and `Datelike::month` / `Datelike::day` range over
/// 1..=12 and 1..=31 (chrono's documented ranges).  Like the rest of the
/// application, this inherits chrono's panic when the host clock is set
/// before the Unix epoch.
#[verifier::external_body]
fn today_raw() -> (r: Date)
    ensures
        1 <= r.month <= 12,
        1 <= r.day <= 31,
{
    let d = chrono::Local::now().date_naive();
    Date { year: d.year(), month: d.month() as u8, day: d.day() as u8 }
}

/// Relies on chrono: `Utc::now().timestamp()` is the current Unix time in
/// whole seconds.  Nothing further is promised of the value.  Like the
/// rest of the application, this inherits chrono's panic when the host
/// clock is set before the Unix epoch.
#[verifier::external_body]
fn unix_time() -> i64 {
    chrono::Utc::now().timestamp()
}

/// Today's date from the local clock.
pub(crate) fn today() -> (r: Date)
    ensures
        1 <= r.month <= 12,
        1 <= r.day <= 31,
{
    today_raw()
}

/// The current Unix time in seconds, clamped below at zero.
pub(crate) fn current_time() -> (r: u64)
    ensures
        r <= i64::MAX as u64,
{
    let t = unix_time();
    if t < 0 {
        0
    } else {
        t as u64
    }
}

} // verus!
