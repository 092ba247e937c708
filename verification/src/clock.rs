//! The wall clock.

use std::time::{Duration, SystemTime, SystemTimeError};

use vstd::prelude::*;

verus! {

/// A reading of the wall clock.
#[verifier::external_type_specification]
#[verifier::external_body]
pub struct ExSystemTime(SystemTime);

/// The error of a reading that lies before another.
#[verifier::external_type_specification]
#[verifier::external_body]
pub struct ExSystemTimeError(SystemTimeError);

/// The most milliseconds that a `Duration` holds: its seconds are a `u64`.
pub const DURATION_MAX_MILLIS: u128 = 18_446_744_073_709_551_615_999;

/// `SystemTime::now` reads the wall clock. Nothing is claimed of the reading.
pub assume_specification[ SystemTime::now ]() -> SystemTime
;

/// `SystemTime::duration_since` gives the time from another reading to this one, and fails
/// where this one is earlier. Nothing is claimed of the two readings.
pub assume_specification[ SystemTime::duration_since ](
    this: &SystemTime,
    earlier: SystemTime,
) -> Result<Duration, SystemTimeError>
;

/// `Duration::as_millis` gives the whole milliseconds of a duration.
///
/// Claimed of it: a duration holds less than 2^64 seconds, which bounds the result.
pub assume_specification[ Duration::as_millis ](this: &Duration) -> (millis: u128)
    ensures
        millis <= DURATION_MAX_MILLIS,
;

/// Reads the constant `SystemTime::UNIX_EPOCH`.
#[verifier::external_body]
fn unix_epoch() -> SystemTime {
    SystemTime::UNIX_EPOCH
}

/// Displays a `SystemTimeError`. Nothing is claimed of the text.
#[verifier::external_body]
fn display_error(error: &SystemTimeError) -> String {
    error.to_string()
}

/// Whether a reading is the constant `SystemTime::UNIX_EPOCH`.
pub closed spec fn is_unix_epoch(reading: SystemTime) -> bool {
    call_ensures(unix_epoch, (), reading)
}

/// Whether a text is what a `SystemTimeError` is displayed as.
pub closed spec fn displays(error: SystemTimeError, text: String) -> bool {
    call_ensures(display_error, (&error,), text)
}

/// Whether a result is the time since the Unix epoch in milliseconds: there are milliseconds
/// where the clock stands at or after the epoch, and what the clock says where it does not.
pub open spec fn in_millis(
    since_epoch: Result<Duration, SystemTimeError>,
    millis: Result<u128, String>,
) -> bool {
    match since_epoch {
        Ok(since_epoch) => millis matches Ok(millis) && call_ensures(
            Duration::as_millis,
            (&since_epoch,),
            millis,
        ),
        Err(error) => millis matches Err(text) && displays(error, text),
    }
}

/// The milliseconds since the Unix epoch, or what the clock says where it stands before it:
/// `SystemTime::now` is read, and `SystemTime::duration_since` decides which of the two it is.
pub fn unix_millis() -> (millis: Result<u128, String>)
    ensures
        exists|
            now: SystemTime,
            epoch: SystemTime,
            since_epoch: Result<Duration, SystemTimeError>,
        |
            {
                &&& call_ensures(SystemTime::now, (), now)
                &&& is_unix_epoch(epoch)
                &&& #[trigger] call_ensures(SystemTime::duration_since, (&now, epoch), since_epoch)
                &&& in_millis(since_epoch, millis)
            },
        millis matches Ok(millis) ==> millis <= DURATION_MAX_MILLIS,
{
    let now = SystemTime::now();
    let epoch = unix_epoch();
    match now.duration_since(epoch) {
        Ok(since_epoch) => Ok(since_epoch.as_millis()),
        Err(error) => Err(display_error(&error)),
    }
}

} // verus!
