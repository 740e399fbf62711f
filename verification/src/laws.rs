use vstd::prelude::*;
use crate::authority::{derived_authority, AUTHORITY_LABEL};
use crate::error::{CustomError, LedgerError};
use crate::identity::Identity;
use crate::instructions::{
    spec_create_token_mint, spec_freeze_token_account, spec_thaw_token_account, CreateTokenMint,
    DelegateTokens, FreezeOrThawAccount,
};
use crate::ledger::{spec_conclude, AuthorityProof, LedgerRequest, Mint, TokenAccount};

verus! {

/// True when the caller of a freeze or a thaw is let through: the mint is the one that the
/// account refers to, and the caller is the mint's recorded authority.
pub open spec fn admitted(ctx: FreezeOrThawAccount) -> bool {
    ctx.mint.mint_authority == Some(ctx.admin) && ctx.mint.address
        == ctx.token_account_to_process.mint
}

/// Creating a mint succeeds exactly when the program authority can be derived, and the mint
/// that the ledger then records has the given decimals, the given mint authority, and the
/// program authority derived from the fixed label as its freeze authority.
pub proof fn law_created_mint_is_bound_to_program_authority(
    ctx: CreateTokenMint,
    decimals: u8,
    mint_authority: Identity,
)
    ensures
        spec_create_token_mint(ctx, decimals, mint_authority) is Ok <==> derived_authority(
            AUTHORITY_LABEL@,
            ctx.program_id,
        ) is Ok,
        spec_create_token_mint(ctx, decimals, mint_authority) is Ok ==> spec_create_token_mint(
            ctx,
            decimals,
            mint_authority,
        ).unwrap().spec_allocated_mint() == Some(
            Mint {
                address: ctx.mint,
                decimals,
                mint_authority: Some(mint_authority),
                freeze_authority: Some(
                    derived_authority(AUTHORITY_LABEL@, ctx.program_id).unwrap().identity,
                ),
            },
        ),
        spec_create_token_mint(ctx, decimals, mint_authority) is Err ==> spec_create_token_mint(
            ctx,
            decimals,
            mint_authority,
        ) == Err::<LedgerRequest, CustomError>(CustomError::DerivationExhausted),
{
}

/// The authority whose proof a freeze or a thaw presents is the freeze authority of every mint
/// created under the same program.
pub proof fn law_freeze_proof_matches_created_mint(
    creation: CreateTokenMint,
    decimals: u8,
    mint_authority: Identity,
    ctx: FreezeOrThawAccount,
)
    requires
        creation.program_id == ctx.program_id,
        spec_create_token_mint(creation, decimals, mint_authority) is Ok,
        admitted(ctx),
    ensures
        spec_freeze_token_account(ctx) matches Ok(LedgerRequest::FreezeAccount { proof, .. })
            && proof is Derivation && Some(proof->authority) == spec_create_token_mint(
            creation,
            decimals,
            mint_authority,
        ).unwrap().spec_allocated_mint().unwrap().freeze_authority,
        spec_thaw_token_account(ctx) matches Ok(LedgerRequest::ThawAccount { proof, .. })
            && proof is Derivation && Some(proof->authority) == spec_create_token_mint(
            creation,
            decimals,
            mint_authority,
        ).unwrap().spec_allocated_mint().unwrap().freeze_authority,
{
}

/// A caller who is not let through is refused whatever else holds, and nothing changes: a mint
/// that is not the account's gives `StructuralMismatch`, before the authority is looked at; a
/// caller who is not the recorded authority gives `Unauthorized`; the account is as it was.
pub proof fn law_gate_refuses(ctx: FreezeOrThawAccount, reply: Result<(), LedgerError>)
    requires
        !admitted(ctx),
    ensures
        spec_freeze_token_account(ctx) == spec_thaw_token_account(ctx),
        spec_freeze_token_account(ctx) == if ctx.mint.address
            != ctx.token_account_to_process.mint {
            Err::<LedgerRequest, CustomError>(CustomError::StructuralMismatch)
        } else {
            Err::<LedgerRequest, CustomError>(CustomError::Unauthorized)
        },
        ctx.token_account_to_process.after_operation(spec_freeze_token_account(ctx), reply)
            == ctx.token_account_to_process,
        ctx.token_account_to_process.after_operation(spec_thaw_token_account(ctx), reply)
            == ctx.token_account_to_process,
{
}

/// Where the program authority can be derived, a freeze and a thaw succeed exactly for the
/// caller who is let through. Once the ledger has accepted, the account is frozen after a
/// freeze and active after a thaw, and nothing else about it has changed; where the ledger
/// refuses, or the caller is not let through, the account is as it was.
pub proof fn law_gate_decides(ctx: FreezeOrThawAccount, reply: Result<(), LedgerError>)
    requires
        derived_authority(AUTHORITY_LABEL@, ctx.program_id) is Ok,
    ensures
        spec_freeze_token_account(ctx) is Ok <==> admitted(ctx),
        spec_thaw_token_account(ctx) is Ok <==> admitted(ctx),
        !admitted(ctx) ==> spec_freeze_token_account(ctx) is Err && (spec_freeze_token_account(
            ctx,
        )->Err_0 is Unauthorized || spec_freeze_token_account(ctx)->Err_0 is StructuralMismatch),
        !admitted(ctx) ==> spec_thaw_token_account(ctx) is Err && (spec_thaw_token_account(
            ctx,
        )->Err_0 is Unauthorized || spec_thaw_token_account(ctx)->Err_0 is StructuralMismatch),
        ctx.token_account_to_process.after_operation(spec_freeze_token_account(ctx), reply)
            == if admitted(ctx) && reply is Ok {
            TokenAccount { frozen: true, ..ctx.token_account_to_process }
        } else {
            ctx.token_account_to_process
        },
        ctx.token_account_to_process.after_operation(spec_thaw_token_account(ctx), reply)
            == if admitted(ctx) && reply is Ok {
            TokenAccount { frozen: false, ..ctx.token_account_to_process }
        } else {
            ctx.token_account_to_process
        },
{
}

/// A thaw that the ledger accepts undoes a freeze that it accepted: the account is active
/// again and otherwise as the freeze left it.
pub proof fn law_thaw_undoes_freeze(ctx: FreezeOrThawAccount)
    requires
        admitted(ctx),
        derived_authority(AUTHORITY_LABEL@, ctx.program_id) is Ok,
    ensures
        ({
            let frozen = ctx.token_account_to_process.after_operation(
                spec_freeze_token_account(ctx),
                Ok(()),
            );
            let again = FreezeOrThawAccount { token_account_to_process: frozen, ..ctx };
            &&& frozen.frozen
            &&& admitted(again)
            &&& frozen.after_operation(spec_thaw_token_account(again), Ok(())) == TokenAccount {
                frozen: false,
                ..ctx.token_account_to_process
            }
        }),
{
}

/// Delegating never fails locally and never looks at the delegate: whatever identity is
/// named, the approval goes out with that identity, the amount and the owner's signature, and
/// once the ledger has accepted it the account's delegate is that identity with that amount,
/// in place of any earlier grant.
pub proof fn law_delegate_is_unrestricted(
    ctx: DelegateTokens,
    amount: u64,
    reply: Result<(), LedgerError>,
)
    ensures
        ctx.spec_approval(amount) == (LedgerRequest::Approve {
            token_account: ctx.token_account.address,
            delegate: ctx.delegate,
            amount,
            proof: AuthorityProof::Signature { signer: ctx.owner },
        }),
        spec_conclude(ctx.spec_approval(amount), reply) is Ok <==> reply is Ok,
        reply is Ok ==> ctx.token_account.after_operation(
            Ok::<LedgerRequest, CustomError>(ctx.spec_approval(amount)),
            reply,
        ) == (TokenAccount {
            delegate: Some(ctx.delegate),
            delegated_amount: amount,
            ..ctx.token_account
        }),
        reply is Err ==> ctx.token_account.after_operation(
            Ok::<LedgerRequest, CustomError>(ctx.spec_approval(amount)),
            reply,
        ) == ctx.token_account,
{
}

/// A request touches the account that it names and no other.
pub proof fn law_other_accounts_untouched(other: TokenAccount, request: LedgerRequest)
    requires
        match request {
            LedgerRequest::AllocateMint { .. } => true,
            LedgerRequest::Approve { token_account, .. } => token_account != other.address,
            LedgerRequest::FreezeAccount { token_account, .. } => token_account != other.address,
            LedgerRequest::ThawAccount { token_account, .. } => token_account != other.address,
        },
    ensures
        other.after(request) == other,
{
}

/// Every failure is either decided locally, before anything reaches the ledger, or is the
/// ledger's own refusal handed on: an operation's decision fails only with a local failure, and
/// the ledger's answer never turns into one.
pub proof fn law_failures_are_local_or_passed_through(
    creation: CreateTokenMint,
    decimals: u8,
    mint_authority: Identity,
    delegation: DelegateTokens,
    amount: u64,
    ctx: FreezeOrThawAccount,
    request: LedgerRequest,
    reply: Result<(), LedgerError>,
)
    ensures
        spec_create_token_mint(creation, decimals, mint_authority) matches Err(failure)
            ==> failure.is_local(),
        spec_freeze_token_account(ctx) matches Err(failure) ==> failure.is_local(),
        spec_thaw_token_account(ctx) matches Err(failure) ==> failure.is_local(),
        spec_conclude(request, reply) matches Err(failure) ==> !failure.is_local(),
{
}

/// A refusal by the ledger reaches the caller with the ledger's own error inside, and every
/// acceptance is a success.
pub proof fn law_refusals_pass_through(request: LedgerRequest, refusal: LedgerError)
    ensures
        spec_conclude(request, Ok(())) == Ok::<(), CustomError>(()),
        spec_conclude(request, Err(refusal)) == if request is AllocateMint {
            Err::<(), CustomError>(CustomError::ProvisioningFailed(refusal))
        } else {
            Err::<(), CustomError>(CustomError::Ledger(refusal))
        },
{
}

} // verus!
