use custom_token_program::error::{CustomError, LedgerError};

#[test]
fn unauthorized_message_names_the_mint_authority() {
    assert_eq!(
        CustomError::Unauthorized.message(),
        "Unauthorized: The signer is not the mint authority."
    );
}

#[test]
fn every_failure_has_its_own_message() {
    let refusal = LedgerError { code: 1 };
    assert_eq!(
        CustomError::StructuralMismatch.message(),
        "StructuralMismatch: The mint does not belong to the token account."
    );
    assert_eq!(
        CustomError::DerivationExhausted.message(),
        "DerivationExhausted: No program authority exists for the label."
    );
    assert_eq!(
        CustomError::ProvisioningFailed(refusal).message(),
        "ProvisioningFailed: The ledger could not allocate the mint."
    );
    assert_eq!(CustomError::Ledger(refusal).message(), "Ledger: The ledger rejected the request.");
}
