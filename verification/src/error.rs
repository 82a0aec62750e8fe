//! The ways an operation is refused.

use vstd::prelude::*;

verus! {

/// Why an operation was refused.  A refused operation changes nothing.
#[derive(Clone, Copy, Debug, PartialEq, Eq, Structural)]
pub enum CustomError {
    /// The caller is not who the operation is reserved for.
    Unauthorized,
    /// A record already stands at the identity that was to be created.
    AlreadyInitialized,
    /// A stored disambiguator does not regenerate the identity of its record.
    DerivationMismatch,
    /// The operator set is full.
    CapacityExceeded,
    /// The amount exceeds the balance it was to be taken from.
    InsufficientFunds,
    /// The ledger refused the request for a reason of its own.
    LedgerError,
}

impl CustomError {
    /// The description of each refusal.
    pub open spec fn description(self) -> Seq<char> {
        match self {
            CustomError::Unauthorized => "Unauthorized error"@,
            CustomError::AlreadyInitialized => "Already initialized"@,
            CustomError::DerivationMismatch => "Derivation mismatch"@,
            CustomError::CapacityExceeded => "Capacity exceeded"@,
            CustomError::InsufficientFunds => "Insufficient funds"@,
            CustomError::LedgerError => "Ledger error"@,
        }
    }

    /// A short description for people.
    pub fn message(&self) -> (text: &'static str)
        ensures
            text@ == self.description(),
    {
        match self {
            CustomError::Unauthorized => "Unauthorized error",
            CustomError::AlreadyInitialized => "Already initialized",
            CustomError::DerivationMismatch => "Derivation mismatch",
            CustomError::CapacityExceeded => "Capacity exceeded",
            CustomError::InsufficientFunds => "Insufficient funds",
            CustomError::LedgerError => "Ledger error",
        }
    }
}

} // verus!
