use vstd::prelude::*;

verus! {

/// A failure reported by the external ledger, carried as the ledger's own numeric code.
///
/// The code is never interpreted here: it is handed on as it came.
#[derive(Clone, Copy, Debug, PartialEq, Eq)]
pub struct LedgerError {
    pub code: u64,
}

/// Why an operation did not complete.
#[derive(Clone, Copy, Debug, PartialEq, Eq)]
pub enum CustomError {
    /// The caller is not the mint authority recorded on the mint.
    Unauthorized,
    /// The supplied mint is not the mint that the holder account refers to.
    StructuralMismatch,
    /// No disambiguation byte yields a program-controlled identity for the label.
    DerivationExhausted,
    /// The ledger refused to allocate the mint; its error is inside, unchanged.
    ProvisioningFailed(LedgerError),
    /// The ledger refused an approval, a freeze or a thaw; its error is inside, unchanged.
    Ledger(LedgerError),
}

impl CustomError {
    /// True for the failures that are decided locally, before anything reaches the ledger.
    pub open spec fn is_local(self) -> bool {
        self is Unauthorized || self is StructuralMismatch || self is DerivationExhausted
    }

    /// The text shown to a user for this failure.
    pub fn message(&self) -> (text: String)
        ensures
            text@ == self.spec_message(),
    {
        match self {
            CustomError::Unauthorized => "Unauthorized: The signer is not the mint authority.".to_string(),
            CustomError::StructuralMismatch => "StructuralMismatch: The mint does not belong to the token account.".to_string(),
            CustomError::DerivationExhausted => "DerivationExhausted: No program authority exists for the label.".to_string(),
            CustomError::ProvisioningFailed(_) => "ProvisioningFailed: The ledger could not allocate the mint.".to_string(),
            CustomError::Ledger(_) => "Ledger: The ledger rejected the request.".to_string(),
        }
    }

    /// The text of each failure, as a sequence of characters.
    pub open spec fn spec_message(self) -> Seq<char> {
        match self {
            CustomError::Unauthorized => "Unauthorized: The signer is not the mint authority."@,
            CustomError::StructuralMismatch => "StructuralMismatch: The mint does not belong to the token account."@,
            CustomError::DerivationExhausted => "DerivationExhausted: No program authority exists for the label."@,
            CustomError::ProvisioningFailed(_) => "ProvisioningFailed: The ledger could not allocate the mint."@,
            CustomError::Ledger(_) => "Ledger: The ledger rejected the request."@,
        }
    }
}

} // verus!
