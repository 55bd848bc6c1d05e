//! Time stamps and progress pacing.
use vstd::prelude::*;

use std::time::{Duration, Instant, SystemTime};

use crate::text::{decimal, decimal_string};

verus! {

#[verifier::external_type_specification]
#[verifier::external_body]
pub struct ExInstant(Instant);

#[verifier::external_type_specification]
#[verifier::external_body]
pub struct ExSystemTime(SystemTime);

/// `Instant::now` from std: a reading of the monotonic clock. Nothing is
/// stated of the reading, which depends on when the call is made.
#[verifier::external_body]
fn monotonic_now() -> (now: Instant) {
    Instant::now()
}

/// `Instant::duration_since` from std: the time from `earlier` to `later`
/// (zero when `earlier` is in fact later). Nothing is stated of the value,
/// which depends on the clock readings.
#[verifier::external_body]
fn duration_between(later: &Instant, earlier: &Instant) -> (d: Duration) {
    later.duration_since(*earlier)
}

/// `Duration::as_secs` from std: the whole seconds of `d`. Nothing is stated
/// of the value: a `Duration` is opaque here.
#[verifier::external_body]
fn whole_seconds(d: &Duration) -> (secs: u64) {
    d.as_secs()
}

/// `SystemTime::now` from std: a reading of the wall clock. Nothing is
/// stated of the reading.
#[verifier::external_body]
fn wall_clock_now() -> (now: SystemTime) {
    SystemTime::now()
}

/// `SystemTime::duration_since(UNIX_EPOCH)` from std: the time since the
/// Unix epoch, `None` for a time before it. Nothing is stated of the value,
/// which depends on the clock reading.
#[verifier::external_body]
fn since_epoch(time: &SystemTime) -> (d: Option<Duration>) {
    match time.duration_since(std::time::UNIX_EPOCH) {
        Ok(d) => Some(d),
        Err(_) => None,
    }
}

/// Whether a progress line is due after `elapsed_secs` seconds when lines
/// are wanted every `every_seconds` seconds (0 turns them off).
pub fn progress_due(elapsed_secs: u64, every_seconds: u64) -> (due: bool)
    ensures
        due == (every_seconds > 0 && elapsed_secs >= every_seconds),
{
    every_seconds > 0 && elapsed_secs >= every_seconds
}

/// One pacing step, given the clock reading `now` and the whole seconds
/// `elapsed_secs` from the last progress line to it: a line is due when
/// lines are on and `every_seconds` have passed, and then `last_progress`
/// moves to `now`; otherwise it stays.
pub fn advance_progress(last_progress: &mut Instant, now: Instant, elapsed_secs: u64, every_seconds: u64)
    -> (due: bool)
    ensures
        due == (every_seconds > 0 && elapsed_secs >= every_seconds),
        due ==> *final(last_progress) == now,
        !due ==> *final(last_progress) == *old(last_progress),
{
    if progress_due(elapsed_secs, every_seconds) {
        *last_progress = now;
        true
    } else {
        false
    }
}

/// Whether a progress line is due now; when it is, `last_progress` moves to
/// now. With `every_seconds == 0` no line is ever due and the clock is not
/// read.
pub fn should_report_progress(last_progress: &mut Instant, every_seconds: u64) -> (due: bool)
    ensures
        every_seconds == 0 ==> !due,
        due ==> every_seconds > 0,
        !due ==> *final(last_progress) == *old(last_progress),
{
    if every_seconds == 0 {
        return false;
    }
    let now = monotonic_now();
    let elapsed = whole_seconds(&duration_between(&now, last_progress));
    advance_progress(last_progress, now, elapsed, every_seconds)
}

/// The current time as decimal seconds since the Unix epoch, `"0"` when the
/// clock reads a time before the epoch.
pub fn now_string() -> (r: String)
    ensures
        exists|secs: u64| r@ == decimal(secs as nat),
{
    let now = wall_clock_now();
    let secs = match since_epoch(&now) {
        Some(d) => Some(whole_seconds(&d)),
        None => None,
    };
    seconds_text(secs)
}

/// The text of a time stamp: the decimal seconds since the epoch, or `"0"`
/// for a time before the epoch.
pub fn seconds_text(secs: Option<u64>) -> (r: String)
    ensures
        r@ == match secs {
            Some(s) => decimal(s as nat),
            None => decimal(0),
        },
{
    match secs {
        Some(s) => decimal_string(s),
        None => decimal_string(0),
    }
}

} // verus!
