//! The ways in which an operation fails.

use vstd::prelude::*;

verus! {

/// Why an operation was refused. A refused operation changes nothing but,
/// for a swap, the stamps of the ledger.
#[derive(Clone, Copy, Debug, PartialEq, Eq, Structural)]
pub enum ContractError {
    /// The caller is not the owner.
    Unauthorized {  },
    /// No deposit of the batch may be dispatched yet.
    AllPending {  },
    /// An input is malformed: a text that should be an address is none.
    ValidationError {  },
}

impl ContractError {
    /// A sentence for the error.
    pub fn message(&self) -> (text: String)
        ensures
            text@ == match *self {
                ContractError::Unauthorized {  } => "Unauthorized"@,
                ContractError::AllPending {  } => "All deposits are pending"@,
                ContractError::ValidationError {  } => "Invalid input"@,
            },
    {
        match self {
            ContractError::Unauthorized {  } => "Unauthorized".to_owned(),
            ContractError::AllPending {  } => "All deposits are pending".to_owned(),
            ContractError::ValidationError {  } => "Invalid input".to_owned(),
        }
    }
}

} // verus!
