//! The clock that stamps snackbar entries.
use vstd::prelude::*;

verus! {

/// The point in time that iced's clock reports.
#[verifier::external_type_specification]
#[verifier::external_body]
pub struct ExInstant(iced_core::time::Instant);

/// Reads the current time with `iced_core::time::Instant::now`.
///
/// Nothing is claimed of the result: it depends on the clock.
#[verifier::external_body]
pub(crate) fn now() -> iced_core::time::Instant {
    iced_core::time::Instant::now()
}

} // verus!
