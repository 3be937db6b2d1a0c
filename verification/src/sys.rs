//! Trusted access to the machine's identity and clock.

use vstd::prelude::*;

verus! {

/// Relies on `gethostname::gethostname`, which reads the local machine's
/// host name; `None` when that name is not valid Unicode. The name is a
/// property of the machine, not of any argument, so nothing is promised
/// of the value.
#[verifier::external_body]
pub(crate) fn local_hostname() -> Option<String> {
    gethostname::gethostname().into_string().ok()
}

/// Relies on `chrono::Utc::now` and `DateTime::timestamp_micros`: the
/// current wall clock as microseconds since the Unix epoch. The clock is
/// outside this library's control, so nothing is promised of the value.
#[verifier::external_body]
pub(crate) fn now_unix_micros() -> i64 {
    chrono::Utc::now().timestamp_micros()
}

} // verus!
