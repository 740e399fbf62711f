use vstd::prelude::*;
use crate::authority::{derive_program_authority, derived_authority, ProgramAuthority, AUTHORITY_LABEL};
use crate::error::CustomError;
use crate::identity::Identity;
use crate::ledger::{AuthorityProof, LedgerRequest, Mint, TokenAccount};

verus! {

/// What creating a mint needs to know.
#[derive(Clone, Copy, Debug, PartialEq, Eq)]
pub struct CreateTokenMint {
    /// The program on whose behalf the authority is derived.
    pub program_id: Identity,
    /// The identity under which the ledger is to keep the new mint.
    pub mint: Identity,
}

/// What delegating needs to know.
#[derive(Clone, Copy, Debug, PartialEq, Eq)]
pub struct DelegateTokens {
    /// The holder account that grants the right to spend.
    pub token_account: TokenAccount,
    /// Who is to receive the right. Any identity will do.
    pub delegate: Identity,
    /// The signer who stands for the account's owner.
    pub owner: Identity,
}

/// What freezing or thawing needs to know.
#[derive(Clone, Copy, Debug, PartialEq, Eq)]
pub struct FreezeOrThawAccount {
    /// The program on whose behalf the authority is derived.
    pub program_id: Identity,
    /// The signer who asks for the change.
    pub admin: Identity,
    /// The holder account to suspend or release.
    pub token_account_to_process: TokenAccount,
    /// The mint whose recorded authority decides whether `admin` may ask.
    pub mint: Mint,
}

impl CreateTokenMint {
    /// The request that allocates the mint with `authority` as its freeze authority.
    pub open spec fn spec_allocation(
        self,
        decimals: u8,
        mint_authority: Identity,
        authority: ProgramAuthority,
    ) -> LedgerRequest {
        LedgerRequest::AllocateMint {
            mint: self.mint,
            decimals,
            mint_authority,
            freeze_authority: authority.identity,
        }
    }

    /// The request that allocates the mint with `authority` as its freeze authority.
    pub fn allocation(
        &self,
        decimals: u8,
        mint_authority: Identity,
        authority: &ProgramAuthority,
    ) -> (request: LedgerRequest)
        ensures
            request == self.spec_allocation(decimals, mint_authority, *authority),
    {
        LedgerRequest::AllocateMint {
            mint: self.mint,
            decimals,
            mint_authority,
            freeze_authority: authority.identity,
        }
    }
}

impl DelegateTokens {
    /// The approval that the owner asks for, signed by the owner and by nobody else.
    pub open spec fn spec_approval(self, amount: u64) -> LedgerRequest {
        LedgerRequest::Approve {
            token_account: self.token_account.address,
            delegate: self.delegate,
            amount,
            proof: AuthorityProof::Signature { signer: self.owner },
        }
    }
}

impl FreezeOrThawAccount {
    /// The two checks that stand before a freeze or a thaw, in their order: the mint must be
    /// the one that the account refers to, and then the caller must be the mint's recorded
    /// authority. A mint without a recorded authority lets nobody through.
    pub open spec fn spec_guard(self) -> Result<(), CustomError> {
        if self.token_account_to_process.mint != self.mint.address {
            Err(CustomError::StructuralMismatch)
        } else if self.mint.mint_authority != Some(self.admin) {
            Err(CustomError::Unauthorized)
        } else {
            Ok(())
        }
    }

    /// Runs the two checks that stand before a freeze or a thaw.
    pub fn guard(&self) -> (checked: Result<(), CustomError>)
        ensures
            checked == self.spec_guard(),
    {
        if !self.token_account_to_process.mint.same_as(&self.mint.address) {
            return Err(CustomError::StructuralMismatch);
        }
        match self.mint.mint_authority {
            Some(recorded) => {
                if self.admin.same_as(&recorded) {
                    Ok(())
                } else {
                    Err(CustomError::Unauthorized)
                }
            },
            None => Err(CustomError::Unauthorized),
        }
    }

    /// The proof that `authority` presents to the ledger.
    pub open spec fn proof_of(authority: ProgramAuthority) -> AuthorityProof {
        AuthorityProof::Derivation { authority: authority.identity, bump: authority.bump }
    }

    /// The request that suspends the account under `authority`.
    pub open spec fn spec_freeze_request(self, authority: ProgramAuthority) -> LedgerRequest {
        LedgerRequest::FreezeAccount {
            token_account: self.token_account_to_process.address,
            mint: self.mint.address,
            proof: Self::proof_of(authority),
        }
    }

    /// The request that releases the account under `authority`.
    pub open spec fn spec_thaw_request(self, authority: ProgramAuthority) -> LedgerRequest {
        LedgerRequest::ThawAccount {
            token_account: self.token_account_to_process.address,
            mint: self.mint.address,
            proof: Self::proof_of(authority),
        }
    }

    /// The request that suspends the account under `authority`.
    pub fn freeze_request(&self, authority: &ProgramAuthority) -> (request: LedgerRequest)
        ensures
            request == self.spec_freeze_request(*authority),
    {
        LedgerRequest::FreezeAccount {
            token_account: self.token_account_to_process.address,
            mint: self.mint.address,
            proof: AuthorityProof::Derivation { authority: authority.identity, bump: authority.bump },
        }
    }

    /// The request that releases the account under `authority`.
    pub fn thaw_request(&self, authority: &ProgramAuthority) -> (request: LedgerRequest)
        ensures
            request == self.spec_thaw_request(*authority),
    {
        LedgerRequest::ThawAccount {
            token_account: self.token_account_to_process.address,
            mint: self.mint.address,
            proof: AuthorityProof::Derivation { authority: authority.identity, bump: authority.bump },
        }
    }
}

/// What creating a mint decides: the allocation with the derived program authority as freeze
/// authority, or the failure of the derivation.
pub open spec fn spec_create_token_mint(
    ctx: CreateTokenMint,
    decimals: u8,
    mint_authority: Identity,
) -> Result<LedgerRequest, CustomError> {
    match derived_authority(AUTHORITY_LABEL@, ctx.program_id) {
        Ok(authority) => Ok(ctx.spec_allocation(decimals, mint_authority, authority)),
        Err(failure) => Err(failure),
    }
}

/// What a freeze decides: the failure of the first check that fails, else the failure of the
/// derivation, else the request under the derived authority.
pub open spec fn spec_freeze_token_account(ctx: FreezeOrThawAccount) -> Result<
    LedgerRequest,
    CustomError,
> {
    match ctx.spec_guard() {
        Err(failure) => Err(failure),
        Ok(_) => match derived_authority(AUTHORITY_LABEL@, ctx.program_id) {
            Ok(authority) => Ok(ctx.spec_freeze_request(authority)),
            Err(failure) => Err(failure),
        },
    }
}

/// What a thaw decides: as a freeze does, with the request that releases.
pub open spec fn spec_thaw_token_account(ctx: FreezeOrThawAccount) -> Result<
    LedgerRequest,
    CustomError,
> {
    match ctx.spec_guard() {
        Err(failure) => Err(failure),
        Ok(_) => match derived_authority(AUTHORITY_LABEL@, ctx.program_id) {
            Ok(authority) => Ok(ctx.spec_thaw_request(authority)),
            Err(failure) => Err(failure),
        },
    }
}

/// Creates a token mint whose freeze authority is the program authority.
///
/// Nothing is decided here but that binding: the decimals and the mint authority go to the
/// ledger as they came.
pub fn create_token_mint(ctx: &CreateTokenMint, decimals: u8, mint_authority: Identity) -> (decision:
    Result<LedgerRequest, CustomError>)
    ensures
        decision == spec_create_token_mint(*ctx, decimals, mint_authority),
{
    match derive_program_authority(AUTHORITY_LABEL.as_slice(), &ctx.program_id) {
        Ok(authority) => Ok(ctx.allocation(decimals, mint_authority, &authority)),
        Err(failure) => Err(failure),
    }
}

/// Relays the owner's wish to let `ctx.delegate` spend up to `amount`.
///
/// The delegate is not looked at, and no local check can fail.
pub fn delegate_tokens(ctx: &DelegateTokens, amount: u64) -> (decision: Result<
    LedgerRequest,
    CustomError,
>)
    ensures
        decision == Ok::<LedgerRequest, CustomError>(ctx.spec_approval(amount)),
{
    Ok(
        LedgerRequest::Approve {
            token_account: ctx.token_account.address,
            delegate: ctx.delegate,
            amount,
            proof: AuthorityProof::Signature { signer: ctx.owner },
        },
    )
}

/// Freezes a holder account, if the caller is the mint's recorded authority.
///
/// The checks come first; the program authority is derived only once they have passed.
pub fn freeze_token_account(ctx: &FreezeOrThawAccount) -> (decision: Result<
    LedgerRequest,
    CustomError,
>)
    ensures
        decision == spec_freeze_token_account(*ctx),
{
    match ctx.guard() {
        Err(failure) => Err(failure),
        Ok(_) => match derive_program_authority(AUTHORITY_LABEL.as_slice(), &ctx.program_id) {
            Ok(authority) => Ok(ctx.freeze_request(&authority)),
            Err(failure) => Err(failure),
        },
    }
}

/// Thaws a holder account, if the caller is the mint's recorded authority.
///
/// The checks come first; the program authority is derived only once they have passed.
pub fn thaw_token_account(ctx: &FreezeOrThawAccount) -> (decision: Result<
    LedgerRequest,
    CustomError,
>)
    ensures
        decision == spec_thaw_token_account(*ctx),
{
    match ctx.guard() {
        Err(failure) => Err(failure),
        Ok(_) => match derive_program_authority(AUTHORITY_LABEL.as_slice(), &ctx.program_id) {
            Ok(authority) => Ok(ctx.thaw_request(&authority)),
            Err(failure) => Err(failure),
        },
    }
}

} // verus!
