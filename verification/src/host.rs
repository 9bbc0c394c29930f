//! What the library asks of the machine it runs on: the time, a fresh
//! identifier and the host's name. None of the three is a function of its
//! arguments, so nothing is claimed of what comes back.

use vstd::prelude::*;

verus! {

/// The current time in whole seconds since the Unix epoch.
///
/// Calls `chrono::Utc::now` and `DateTime::timestamp`. Nothing is claimed of
/// the value. `Utc::now` panics when the system clock stands before the
/// epoch.
#[verifier::external_body]
pub(crate) fn unix_now() -> (now: i64) {
    chrono::Utc::now().timestamp()
}

/// A new random identifier for a node.
///
/// Calls `uuid::Uuid::new_v4` and renders the result with its `Display`
/// impl. Nothing is claimed of the text.
#[verifier::external_body]
pub(crate) fn fresh_node_id() -> (id: String) {
    uuid::Uuid::new_v4().to_string()
}

/// The name of the local host.
///
/// Calls `gethostname::gethostname` and replaces what is not valid Unicode.
/// Nothing is claimed of the text. The outside function panics when the
/// operating system refuses the request.
#[verifier::external_body]
pub(crate) fn local_hostname() -> (name: String) {
    gethostname::gethostname().to_string_lossy().to_string()
}

} // verus!
