use vstd::prelude::*;
use crate::authority::AUTHORITY_LABEL;
use crate::error::{CustomError, LedgerError};
use crate::identity::Identity;

verus! {

/// A token class as the ledger records it.
#[derive(Clone, Copy, Debug, PartialEq, Eq)]
pub struct Mint {
    /// The identity under which the ledger keeps this mint.
    pub address: Identity,
    /// Number of decimal places of the token.
    pub decimals: u8,
    /// Who may mint; the same identity is the only one let through to freeze and thaw.
    /// A mint whose authority was cleared has none, and then nobody is let through: whether
    /// such a mint is meant to stay frozen or thawed for good is left open here.
    pub mint_authority: Option<Identity>,
    /// Whose proof the ledger accepts for freezing and thawing holder accounts.
    pub freeze_authority: Option<Identity>,
}

/// Whether a holder account may transact.
#[derive(Clone, Copy, Debug, PartialEq, Eq)]
pub enum AccountState {
    Active,
    Frozen,
}

/// A holder's record for one mint, as the ledger keeps it.
#[derive(Clone, Copy, Debug, PartialEq, Eq)]
pub struct TokenAccount {
    /// The identity under which the ledger keeps this account.
    pub address: Identity,
    /// The mint whose tokens the account holds.
    pub mint: Identity,
    /// The holder.
    pub owner: Identity,
    /// Who may spend on the holder's behalf, if anyone.
    pub delegate: Option<Identity>,
    /// How much the delegate may spend.
    pub delegated_amount: u64,
    /// True while the account is suspended.
    pub frozen: bool,
}

/// How a request proves to the ledger that it is authorised.
#[derive(Clone, Copy, Debug, PartialEq, Eq)]
pub enum AuthorityProof {
    /// The caller's own signature.
    Signature { signer: Identity },
    /// The program authority, opened by the fixed label and this disambiguation byte.
    Derivation { authority: Identity, bump: u8 },
}

impl AuthorityProof {
    /// The seeds with which the ledger opens the proof: the fixed label and then the
    /// disambiguation byte for a derivation, none for a caller's own signature.
    pub open spec fn spec_signer_seeds(self) -> Seq<Seq<u8>> {
        match self {
            AuthorityProof::Signature { .. } => Seq::empty(),
            AuthorityProof::Derivation { bump, .. } => seq![AUTHORITY_LABEL@, seq![bump]],
        }
    }

    /// Builds the seeds with which the ledger opens the proof.
    pub fn signer_seeds(&self) -> (seeds: Vec<Vec<u8>>)
        ensures
            seeds.deep_view() == self.spec_signer_seeds(),
    {
        let mut seeds: Vec<Vec<u8>> = Vec::new();
        if let AuthorityProof::Derivation { bump, .. } = self {
            let mut label: Vec<u8> = Vec::new();
            let mut i: usize = 0;
            while i < AUTHORITY_LABEL.len()
                invariant
                    i <= AUTHORITY_LABEL@.len(),
                    label@ == AUTHORITY_LABEL@.take(i as int),
                decreases AUTHORITY_LABEL@.len() - i,
            {
                label.push(AUTHORITY_LABEL[i]);
                i += 1;
                assert(label@ =~= AUTHORITY_LABEL@.take(i as int));
            }
            assert(label@ =~= AUTHORITY_LABEL@);
            let mut last: Vec<u8> = Vec::new();
            last.push(*bump);
            assert(last@ =~= seq![*bump]);
            seeds.push(label);
            seeds.push(last);
        }
        assert(seeds.deep_view() =~~= self.spec_signer_seeds());
        seeds
    }
}

/// One request to the external ledger.
#[derive(Clone, Copy, Debug, PartialEq, Eq)]
pub enum LedgerRequest {
    /// Allocate and initialise a mint.
    AllocateMint { mint: Identity, decimals: u8, mint_authority: Identity, freeze_authority: Identity },
    /// Let `delegate` spend up to `amount` from `token_account`, in place of any earlier grant.
    Approve { token_account: Identity, delegate: Identity, amount: u64, proof: AuthorityProof },
    /// Suspend `token_account`.
    FreezeAccount { token_account: Identity, mint: Identity, proof: AuthorityProof },
    /// Release `token_account`.
    ThawAccount { token_account: Identity, mint: Identity, proof: AuthorityProof },
}

impl LedgerRequest {
    /// The mint that the ledger records once it has accepted this request, if the request
    /// allocates one.
    pub open spec fn spec_allocated_mint(self) -> Option<Mint> {
        match self {
            LedgerRequest::AllocateMint { mint, decimals, mint_authority, freeze_authority } => Some(
                Mint {
                    address: mint,
                    decimals,
                    mint_authority: Some(mint_authority),
                    freeze_authority: Some(freeze_authority),
                },
            ),
            _ => None,
        }
    }

    /// The mint that the ledger records once it has accepted this request, if the request
    /// allocates one.
    pub fn allocated_mint(&self) -> (mint: Option<Mint>)
        ensures
            mint == self.spec_allocated_mint(),
    {
        match self {
            LedgerRequest::AllocateMint { mint, decimals, mint_authority, freeze_authority } => Some(
                Mint {
                    address: *mint,
                    decimals: *decimals,
                    mint_authority: Some(*mint_authority),
                    freeze_authority: Some(*freeze_authority),
                },
            ),
            _ => None,
        }
    }
}

impl TokenAccount {
    /// The state of the account.
    pub open spec fn spec_state(self) -> AccountState {
        if self.frozen {
            AccountState::Frozen
        } else {
            AccountState::Active
        }
    }

    /// The state of the account.
    pub fn state(&self) -> (state: AccountState)
        ensures
            state == self.spec_state(),
    {
        if self.frozen {
            AccountState::Frozen
        } else {
            AccountState::Active
        }
    }

    /// The record after the ledger has accepted `request`.
    ///
    /// A request that names this account changes what it is about and nothing else; a request
    /// that names another account, or allocates a mint, changes nothing here.
    pub open spec fn after(self, request: LedgerRequest) -> TokenAccount {
        match request {
            LedgerRequest::Approve { token_account, delegate, amount, proof } => if token_account
                == self.address {
                TokenAccount { delegate: Some(delegate), delegated_amount: amount, ..self }
            } else {
                self
            },
            LedgerRequest::FreezeAccount { token_account, mint, proof } => if token_account
                == self.address {
                TokenAccount { frozen: true, ..self }
            } else {
                self
            },
            LedgerRequest::ThawAccount { token_account, mint, proof } => if token_account
                == self.address {
                TokenAccount { frozen: false, ..self }
            } else {
                self
            },
            LedgerRequest::AllocateMint { .. } => self,
        }
    }

    /// The record after one operation: changed as `after` says when the operation issued a
    /// request and the ledger accepted it, untouched in every other case.
    pub open spec fn after_operation(
        self,
        decision: Result<LedgerRequest, CustomError>,
        reply: Result<(), LedgerError>,
    ) -> TokenAccount {
        match decision {
            Ok(request) => if reply is Ok {
                self.after(request)
            } else {
                self
            },
            Err(_) => self,
        }
    }

    /// Brings this copy of the record up to date with a request that the ledger accepted.
    pub fn apply(&mut self, request: &LedgerRequest)
        ensures
            *final(self) == old(self).after(*request),
    {
        match request {
            LedgerRequest::Approve { token_account, delegate, amount, proof } => {
                if token_account.same_as(&self.address) {
                    self.delegate = Some(*delegate);
                    self.delegated_amount = *amount;
                }
            },
            LedgerRequest::FreezeAccount { token_account, mint, proof } => {
                if token_account.same_as(&self.address) {
                    self.frozen = true;
                }
            },
            LedgerRequest::ThawAccount { token_account, mint, proof } => {
                if token_account.same_as(&self.address) {
                    self.frozen = false;
                }
            },
            LedgerRequest::AllocateMint { .. } => {},
        }
    }

    /// Brings this copy of the record up to date with the outcome of one operation.
    pub fn settle(
        &mut self,
        decision: &Result<LedgerRequest, CustomError>,
        reply: &Result<(), LedgerError>,
    )
        ensures
            *final(self) == old(self).after_operation(*decision, *reply),
    {
        if let Ok(request) = decision {
            if reply.is_ok() {
                self.apply(request);
            }
        }
    }
}

/// What the operation that issued `request` reports once the ledger has answered.
///
/// Acceptance is success. A refusal is handed on with the ledger's error unchanged: as
/// `ProvisioningFailed` when the request was to allocate a mint, as `Ledger` otherwise.
pub open spec fn spec_conclude(request: LedgerRequest, reply: Result<(), LedgerError>) -> Result<
    (),
    CustomError,
> {
    match reply {
        Ok(_) => Ok(()),
        Err(refusal) => if request is AllocateMint {
            Err(CustomError::ProvisioningFailed(refusal))
        } else {
            Err(CustomError::Ledger(refusal))
        },
    }
}

/// Turns the ledger's answer to `request` into the operation's result. Nothing is retried and
/// nothing is swallowed.
pub fn conclude(request: &LedgerRequest, reply: Result<(), LedgerError>) -> (outcome: Result<
    (),
    CustomError,
>)
    ensures
        outcome == spec_conclude(*request, reply),
{
    match reply {
        Ok(_) => Ok(()),
        Err(refusal) => match request {
            LedgerRequest::AllocateMint { .. } => Err(CustomError::ProvisioningFailed(refusal)),
            _ => Err(CustomError::Ledger(refusal)),
        },
    }
}

} // verus!
