//! The external rent model: the minimum balance a cell of a given size must
//! hold to persist.  The rent parameters come from the host environment, so
//! nothing is promised of the returned amount; callers thread it through as
//! an opaque funding value.

use vstd::prelude::*;
use crate::process::RECORD_SPACE;

verus! {

#[verifier::external_type_specification]
#[verifier::external_body]
pub struct ExRent(solana_program::rent::Rent);

/// Relies on `<Rent as Sysvar>::get`: reads the rent sysvar from the host
/// runtime.  The result depends on the environment (and is an error where the
/// host offers no rent sysvar), so nothing is promised of it.
#[verifier::external_body]
pub(crate) fn rent_get() -> (r: Option<solana_program::rent::Rent>) {
    <solana_program::rent::Rent as solana_program::sysvar::Sysvar>::get().ok()
}

/// Relies on `Rent::try_minimum_balance`: the minimum balance the rent model
/// asks of a cell of `size` bytes, or `None` when the size or the rent
/// parameters fall outside the model's permitted range.  (The panicking
/// `minimum_balance` is avoided on purpose.)
#[verifier::external_body]
pub(crate) fn rent_minimum_balance(rent: &solana_program::rent::Rent, size: usize) -> (r: Option<
    u64,
>) {
    rent.try_minimum_balance(size)
}

/// The funding a fresh record cell must be created with: the rent model's
/// minimum balance for a cell of [`RECORD_SPACE`] bytes.  `None` when the
/// host's rent sysvar is unavailable or rejects the query; the result is the
/// environment's answer and nothing more is known of it.
pub fn required_funding() -> (r: Option<u64>) {
    match rent_get() {
        Some(rent) => rent_minimum_balance(&rent, RECORD_SPACE),
        None => None,
    }
}

} // verus!
