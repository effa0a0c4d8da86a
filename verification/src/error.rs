//! The ways in which an operation can fail.
//!
//! Every failure leaves the stored state exactly as it was.

use vstd::prelude::*;

verus! {

/// Why an operation was turned down.
#[derive(Clone, Copy, Debug, PartialEq, Eq, Structural)]
pub enum ContractError {
    /// The configuration has already been set.
    AlreadyInitialized,
    /// The configuration has not been set yet.
    NotInitialized,
    /// No reservation has this identifier.
    NotFound,
    /// A principal whose approval is needed has not given it.
    Unauthorized,
    /// The reservation is in a state from which the operation cannot start.
    InvalidState,
    /// The requested status is not one that a reservation can be resolved to.
    InvalidTransition,
    /// The asset refused to move the value.
    TransferError,
    /// An argument is out of range.
    InvalidInput,
}

} // verus!
