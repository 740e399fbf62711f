use anchor_lang::prelude::Pubkey;
use custom_token_program::authority::{
    authority_from_search, derive_program_authority, ProgramAuthority, AUTHORITY_LABEL,
};
use custom_token_program::error::CustomError;
use custom_token_program::identity::Identity;
use custom_token_program::instructions::{
    create_token_mint, freeze_token_account, CreateTokenMint, FreezeOrThawAccount,
};
use custom_token_program::ledger::{LedgerRequest, TokenAccount};

const PROGRAM: &str = "Fg6PaFpoGXkYsidMpWTK6W2BeZ7FEfcYkg476zPFsLnS";

fn program_key() -> Pubkey {
    PROGRAM.parse::<Pubkey>().unwrap()
}

fn program_identity() -> Identity {
    Identity::new(program_key().to_bytes())
}

#[test]
fn label_is_the_word_authority() {
    assert_eq!(&AUTHORITY_LABEL[..], &b"authority"[..]);
    assert_eq!(AUTHORITY_LABEL.len(), 9);
}

#[test]
fn derivation_agrees_with_the_address_search() {
    let (address, bump) = Pubkey::find_program_address(&[b"authority"], &program_key());
    let derived = derive_program_authority(&AUTHORITY_LABEL, &program_identity());
    assert_eq!(
        derived,
        Ok(ProgramAuthority { identity: Identity::new(address.to_bytes()), bump })
    );
}

#[test]
fn derivation_for_the_declared_program_has_its_exact_value() {
    let derived = derive_program_authority(b"authority", &program_identity()).unwrap();
    assert_eq!(derived.bump, 253);
    assert_eq!(
        derived.identity.to_bytes(),
        [
            116, 59, 193, 211, 139, 52, 135, 119, 244, 175, 99, 122, 197, 206, 42, 180, 124, 173,
            243, 16, 64, 198, 101, 158, 105, 249, 162, 66, 72, 169, 90, 28
        ]
    );
    assert_eq!(
        Pubkey::new_from_array(derived.identity.to_bytes()).to_string(),
        "8pj9GDEBnq5Qn4TbPqWwdjpqtk8cKGrSJu7syHyB31Ab"
    );
}

#[test]
fn derivation_for_a_program_of_ones_has_its_exact_value() {
    let derived = derive_program_authority(b"authority", &Identity::new([1u8; 32])).unwrap();
    assert_eq!(derived.bump, 254);
    assert_eq!(
        derived.identity.to_bytes(),
        [
            127, 120, 38, 174, 154, 186, 244, 18, 121, 157, 18, 204, 107, 150, 143, 177, 105, 239,
            234, 237, 40, 137, 220, 159, 34, 86, 123, 46, 239, 159, 217, 150
        ]
    );
}

#[test]
fn derivation_for_a_program_of_zeros_keeps_the_first_byte_tried() {
    let derived = derive_program_authority(b"authority", &Identity::new([0u8; 32])).unwrap();
    assert_eq!(derived.bump, 255);
    assert_eq!(
        Pubkey::new_from_array(derived.identity.to_bytes()).to_string(),
        "4nHcWcPuJQcuyFeXw17WXDz7NUdtLKoxrjV2AXmK6X5m"
    );
}

#[test]
fn deriving_twice_gives_the_same_pair() {
    let labels: [&[u8]; 4] = [b"authority", b"other", b"", b"a"];
    for label in labels {
        for fill in [0u8, 1, 7, 200, 255] {
            let program = Identity::new([fill; 32]);
            let first = derive_program_authority(label, &program);
            let second = derive_program_authority(label, &program);
            assert_eq!(first, second);
            assert!(first.is_ok());
        }
    }
}

#[test]
fn derived_identity_is_not_the_program_itself() {
    let program = program_identity();
    let derived = derive_program_authority(&AUTHORITY_LABEL, &program).unwrap();
    assert_ne!(derived.identity, program);
    assert!(!derived.identity.same_as(&program));
}

#[test]
fn derivation_depends_on_the_label_and_on_the_program() {
    let program = program_identity();
    let by_fixed_label = derive_program_authority(b"authority", &program).unwrap();
    let by_other_label = derive_program_authority(b"other", &program).unwrap();
    assert_ne!(by_fixed_label.identity, by_other_label.identity);
    assert_eq!(by_other_label.bump, 255);
    let under_other_program =
        derive_program_authority(b"authority", &Identity::new([7u8; 32])).unwrap();
    assert_ne!(by_fixed_label.identity, under_other_program.identity);
    assert_eq!(under_other_program.bump, 253);
}

#[test]
fn derived_identity_has_no_private_key_and_opens_with_its_bump() {
    let program = program_key();
    let derived = derive_program_authority(&AUTHORITY_LABEL, &program_identity()).unwrap();
    let key = Pubkey::new_from_array(derived.identity.to_bytes());
    assert!(!key.is_on_curve());
    let opened = Pubkey::create_program_address(&[b"authority", &[derived.bump]], &program);
    assert_eq!(opened, Ok(key));
}

#[test]
fn label_longer_than_a_seed_exhausts_the_derivation() {
    let label = [5u8; 33];
    let derived = derive_program_authority(&label, &program_identity());
    assert_eq!(derived, Err(CustomError::DerivationExhausted));
}

#[test]
fn label_of_full_seed_length_still_derives() {
    let label = [5u8; 32];
    let derived = derive_program_authority(&label, &program_identity());
    let (address, bump) = Pubkey::find_program_address(&[&label], &program_key());
    assert_eq!(
        derived,
        Ok(ProgramAuthority { identity: Identity::new(address.to_bytes()), bump })
    );
}

#[test]
fn a_finished_search_becomes_an_authority() {
    let identity = Identity::new([9u8; 32]);
    assert_eq!(
        authority_from_search(Some((identity, 251))),
        Ok(ProgramAuthority { identity, bump: 251 })
    );
}

#[test]
fn an_empty_search_is_derivation_exhausted() {
    assert_eq!(authority_from_search(None), Err(CustomError::DerivationExhausted));
}

#[test]
fn seeds_of_a_freeze_open_to_the_freeze_authority_of_a_created_mint() {
    let program_id = program_identity();
    let mint = create_token_mint(
        &CreateTokenMint { program_id, mint: Identity::new([50u8; 32]) },
        6,
        Identity::new([11u8; 32]),
    )
    .unwrap()
    .allocated_mint()
    .unwrap();
    let account = TokenAccount {
        address: Identity::new([60u8; 32]),
        mint: mint.address,
        owner: Identity::new([70u8; 32]),
        delegate: None,
        delegated_amount: 0,
        frozen: false,
    };
    let ctx = FreezeOrThawAccount {
        program_id,
        admin: Identity::new([11u8; 32]),
        token_account_to_process: account,
        mint,
    };
    let request = freeze_token_account(&ctx).unwrap();
    let LedgerRequest::FreezeAccount { proof, .. } = request else {
        panic!("a freeze must ask the ledger to freeze");
    };
    let seeds = proof.signer_seeds();
    let slices: Vec<&[u8]> = seeds.iter().map(|seed| seed.as_slice()).collect();
    let opened = Pubkey::create_program_address(&slices, &program_key()).unwrap();
    assert_eq!(Some(Identity::new(opened.to_bytes())), mint.freeze_authority);
}
