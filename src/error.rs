use vstd::prelude::*;

verus! {

/// Why a call failed. A failed call leaves the state as it found it.
#[derive(Clone, Debug, PartialEq)]
pub enum ContractError {
    /// The caller is not the controller.
    Unauthorized,
    /// The metadata, or a participant's recorded choice, does not exist.
    NotFound,
    /// The metadata already exists.
    StateConflict,
    /// An address does not survive normalization.
    InvalidAddress,
    /// A mint of zero units.
    InvalidZeroAmount,
    /// A mint would take the supply over its cap, or past `u128::MAX`.
    CannotExceedCap,
    /// Another failure reported by the ledger or the store, with its message.
    Std(String),
}

} // verus!
