//! Readings of the system clock, through `chrono`. Their results depend on
//! the time of the call, so nothing is promised of them beyond their type.

use vstd::prelude::*;

verus! {

/// The current local time as RFC 3339 text, from
/// `chrono::Local::now().to_rfc3339()`. The reading depends on the clock and
/// the machine's time zone, so no clause constrains it.
#[verifier::external_body]
pub(crate) fn local_rfc3339() -> (r: String) {
    chrono::Local::now().to_rfc3339()
}

/// The current local time as `YYYY/MM/DD HH:MM:SS`, from
/// `chrono::Local::now().format(..)`. The reading depends on the clock and
/// the machine's time zone, so no clause constrains it.
#[verifier::external_body]
pub(crate) fn local_log_time() -> (r: String) {
    chrono::Local::now().format("%Y/%m/%d %H:%M:%S").to_string()
}

} // verus!
