use vstd::prelude::*;

verus! {

/// The current wall-clock time as seconds since the Unix epoch.
///
/// Relies on `chrono::Utc::now`: the reading depends on the machine clock,
/// so nothing is assumed about which value comes back; callers state what
/// holds for every reading. `Utc::now` panics if the system clock reads
/// before the epoch — an environmental failure outside the machine model.
#[verifier::external_body]
pub fn current_timestamp() -> (r: i64) {
    chrono::Utc::now().timestamp()
}

} // verus!
