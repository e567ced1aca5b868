//! The error taxonomy of the engine.

use vstd::prelude::*;

use crate::model::ErrorV;

verus! {

/// Why an operation was refused.  Every failure aborts the whole operation:
/// no state is mutated and no effect is emitted alongside an error.
#[derive(Debug)]
pub enum ContractError {
    /// The caller lacks the role the operation demands.
    Unauthorized {},
    /// A denomination failed the prefix check, is absent from the registry,
    /// or lacks a required amount.
    InvalidDenom { denom: String, message: String },
    /// Burn was invoked with no attached funds.
    InvalidFunds {},
}

impl View for ContractError {
    type V = ErrorV;

    open spec fn view(&self) -> ErrorV {
        match self {
            ContractError::Unauthorized {} => ErrorV::Unauthorized,
            ContractError::InvalidDenom { denom, message } => ErrorV::InvalidDenom {
                denom: denom@,
                message: message@,
            },
            ContractError::InvalidFunds {} => ErrorV::InvalidFunds,
        }
    }
}

} // verus!
