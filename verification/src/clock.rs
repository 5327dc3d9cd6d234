//! The wall clock, read through `chrono`.

use chrono::Local;
use vstd::prelude::*;

verus! {

/// The local date and time to the second, as `chrono::Local::now()` gives it
/// and `DateTime::format` writes it with the pattern `%Y%m%d-%H%M%S`.
///
/// Trusted, with nothing claimed of the text: it depends on the clock and on
/// the time zone of the machine. `chrono` does not return where the system
/// clock stands before 1970.
#[verifier::external_body]
pub(crate) fn local_time_label() -> (label: String) {
    Local::now().format("%Y%m%d-%H%M%S").to_string()
}

/// The seconds since 1970 that `chrono::Local::now().timestamp()` gives.
///
/// Trusted, with nothing claimed of the number: it depends on the clock.
/// `chrono` does not return where the system clock stands before 1970.
#[verifier::external_body]
pub(crate) fn epoch_seconds_now() -> (now: i64) {
    Local::now().timestamp()
}

} // verus!
