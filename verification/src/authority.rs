use vstd::prelude::*;
use anchor_lang::prelude::Pubkey;
use crate::error::CustomError;
use crate::identity::{lemma_equal_iff_same_bytes, Identity};

verus! {

/// The fixed label from which the program's own signing identity is derived: the ASCII bytes
/// of the word "authority".
pub const AUTHORITY_LABEL: [u8; 9] = [97, 117, 116, 104, 111, 114, 105, 116, 121];

/// The identity that the program controls without any private key, together with the
/// disambiguation byte that the search settled on.
#[derive(Clone, Copy, Debug, PartialEq, Eq)]
pub struct ProgramAuthority {
    pub identity: Identity,
    pub bump: u8,
}

/// What the address search returns for a label under a program: the bytes of the identity and
/// the disambiguation byte, or nothing when no byte gives an identity off the curve.
pub uninterp spec fn program_address(label: Seq<u8>, program_id: Seq<u8>) -> Option<(Seq<u8>, u8)>;

/// The outcome of a search with each identity taken by its bytes.
pub open spec fn search_view(found: Option<(Identity, u8)>) -> Option<(Seq<u8>, u8)> {
    match found {
        Some((identity, bump)) => Some((identity@, bump)),
        None => None,
    }
}

/// The identity whose bytes are the given thirty-two.
pub open spec fn identity_from(bytes: Seq<u8>) -> Identity {
    choose|identity: Identity| identity@ == bytes
}

/// The program authority for a label under a program, or `DerivationExhausted` when the search
/// finds none.
pub open spec fn derived_authority(label: Seq<u8>, program_id: Identity) -> Result<
    ProgramAuthority,
    CustomError,
> {
    match program_address(label, program_id@) {
        Some((address, bump)) => Ok(ProgramAuthority { identity: identity_from(address), bump }),
        None => Err(CustomError::DerivationExhausted),
    }
}

/// The program authority that a finished search stands for.
pub open spec fn authority_of(found: Option<(Identity, u8)>) -> Result<
    ProgramAuthority,
    CustomError,
> {
    match found {
        Some((identity, bump)) => Ok(ProgramAuthority { identity, bump }),
        None => Err(CustomError::DerivationExhausted),
    }
}

/// An identity is recovered from its own bytes.
pub proof fn lemma_identity_from_view(identity: Identity)
    ensures
        identity_from(identity@) == identity,
{
    let chosen = identity_from(identity@);
    assert(chosen@ == identity@);
    lemma_equal_iff_same_bytes(chosen, identity);
}

/// Calls `Pubkey::try_find_program_address` with the label as the only seed.
///
/// Trusted: the result is a function of the label and the program's bytes alone, named
/// `program_address`. The call tries the disambiguation bytes from 255 downwards, hashes the
/// label, the byte, the program's bytes and a fixed marker, and returns the first hash that is
/// not a point of the curve; it returns nothing, without panicking, when the label is longer
/// than a seed may be or no byte qualifies.
#[verifier::external_body]
fn find_program_address(label: &[u8], program_id: &Identity) -> (found: Option<(Identity, u8)>)
    ensures
        search_view(found) == program_address(label@, program_id@),
{
    let program = Pubkey::new_from_array(program_id.bytes);
    match Pubkey::try_find_program_address(&[label], &program) {
        Some((address, bump)) => Some((Identity { bytes: address.to_bytes() }, bump)),
        None => None,
    }
}

/// Turns the outcome of an address search into a program authority, or into
/// `DerivationExhausted` when the search found nothing.
pub fn authority_from_search(found: Option<(Identity, u8)>) -> (derived: Result<
    ProgramAuthority,
    CustomError,
>)
    ensures
        derived == authority_of(found),
{
    match found {
        Some((identity, bump)) => Ok(ProgramAuthority { identity, bump }),
        None => Err(CustomError::DerivationExhausted),
    }
}

/// Derives the program authority for a label under a program.
///
/// A pure function of its two arguments: nothing is stored, and every call with the same label
/// and program gives the same pair.
pub fn derive_program_authority(label: &[u8], program_id: &Identity) -> (derived: Result<
    ProgramAuthority,
    CustomError,
>)
    ensures
        derived == derived_authority(label@, *program_id),
{
    let found = find_program_address(label, program_id);
    proof {
        if let Some((identity, bump)) = found {
            lemma_identity_from_view(identity);
        }
    }
    authority_from_search(found)
}

/// Deriving twice from one label under one program yields one and the same outcome: the same
/// identity with the same disambiguation byte, or the same failure.
pub proof fn law_derivation_is_repeatable(
    label: Seq<u8>,
    program_id: Identity,
    first: Option<(Identity, u8)>,
    second: Option<(Identity, u8)>,
)
    requires
        search_view(first) == program_address(label, program_id@),
        search_view(second) == program_address(label, program_id@),
    ensures
        first == second,
        authority_of(first) == authority_of(second),
        authority_of(first) == derived_authority(label, program_id),
{
    if let Some((a, bump_a)) = first {
        let (b, bump_b) = second.unwrap();
        lemma_equal_iff_same_bytes(a, b);
        lemma_identity_from_view(a);
    }
}

} // verus!
