//! What the service takes from outside at the moment of a write: a new
//! identifier and the time. Neither is computed from the request, so the
//! functions here promise nothing that a caller could build on.

use vstd::prelude::*;

verus! {

/// A new identifier for a ledger entry: the 128-bit value of a random UUID,
/// made by `uuid::Uuid::new_v4` and read with `Uuid::as_u128`.
///
/// Not proved here. The contract claims only what `new_v4` fixes in every
/// identifier it makes: the version is 4 and the variant is the standard
/// one. All other bits come from the operating system's random source.
#[verifier::external_body]
pub(crate) fn fresh_entry_id() -> (id: u128)
    ensures
        id & 0x0000_0000_0000_f000_c000_0000_0000_0000 == 0x0000_0000_0000_4000_8000_0000_0000_0000,
{
    uuid::Uuid::new_v4().as_u128()
}

/// The present time in microseconds since the Unix epoch, read with
/// `chrono::Utc::now` and `DateTime::timestamp_micros`.
///
/// Not proved here, and nothing is claimed of the result: the clock of the
/// machine may stand anywhere and may be set back between two calls.
/// `Utc::now` does not return on a machine whose clock stands before 1970.
#[verifier::external_body]
pub(crate) fn current_timestamp() -> (timestamp: i64) {
    chrono::Utc::now().timestamp_micros()
}

} // verus!
