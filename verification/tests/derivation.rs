use aiai_presale::address::Address;
use aiai_presale::derivation::{
    derive_mint_authority, derive_sale_record, derive_vault, holding_address,
    ASSOCIATED_TOKEN_PROGRAM_ID, MINT_AUTHORITY_TAG, SALE_TAG, TOKEN_PROGRAM_ID, VAULT_TAG,
};
use aiai_presale::setup::Initialize;
use aiai_presale::state::{Mint, Presale};
use anchor_lang::prelude::Pubkey;

fn key(seed: u8) -> Address {
    let mut bytes = [seed; 32];
    bytes[0] = seed.wrapping_mul(31).wrapping_add(5);
    bytes[31] = seed.wrapping_add(1);
    Address::new(bytes)
}

fn pubkey(address: &Address) -> Pubkey {
    Pubkey::new_from_array(address.bytes)
}

#[test]
fn tags_spell_their_names() {
    assert_eq!(&SALE_TAG[..], b"presale");
    assert_eq!(&VAULT_TAG[..], b"vault");
    assert_eq!(&MINT_AUTHORITY_TAG[..], b"mint-auth");
}

#[test]
fn program_ids_are_those_of_the_token_programs() {
    assert_eq!(
        Pubkey::new_from_array(TOKEN_PROGRAM_ID).to_string(),
        "TokenkegQfeZyiNwAJbNbGKPFXCWuBvf9Ss623VQ5DA"
    );
    assert_eq!(Pubkey::new_from_array(TOKEN_PROGRAM_ID), anchor_spl::token::ID);
    assert_eq!(
        Pubkey::new_from_array(ASSOCIATED_TOKEN_PROGRAM_ID).to_string(),
        "ATokenGPvbdGVxr1b2hvZbsiqW5xWH25efTNsLJA8knL"
    );
    assert_eq!(
        Pubkey::new_from_array(ASSOCIATED_TOKEN_PROGRAM_ID),
        anchor_spl::associated_token::ID
    );
}

#[test]
fn sale_record_is_the_program_address_of_tag_and_mint() {
    for seed in 0..20u8 {
        let program = key(seed);
        let mint = key(seed.wrapping_add(100));
        let (expected, bump) =
            Pubkey::find_program_address(&[b"presale", &mint.bytes], &pubkey(&program));
        let found = derive_sale_record(&program, &mint).unwrap();
        assert_eq!(found.key.bytes, expected.to_bytes());
        assert_eq!(found.bump, bump);
        assert_ne!(found.key, mint);
        assert_ne!(found.key, program);
    }
}

#[test]
fn vault_is_the_program_address_of_tag_and_sale() {
    for seed in 0..20u8 {
        let program = key(seed);
        let sale = key(seed.wrapping_add(50));
        let (expected, bump) =
            Pubkey::find_program_address(&[b"vault", &sale.bytes], &pubkey(&program));
        let found = derive_vault(&program, &sale).unwrap();
        assert_eq!(found.key.bytes, expected.to_bytes());
        assert_eq!(found.bump, bump);
        assert_ne!(found.key, sale);
    }
}

#[test]
fn mint_authority_is_the_program_address_of_tag_and_sale() {
    for seed in 0..20u8 {
        let program = key(seed);
        let sale = key(seed.wrapping_add(50));
        let (expected, bump) =
            Pubkey::find_program_address(&[b"mint-auth", &sale.bytes], &pubkey(&program));
        let found = derive_mint_authority(&program, &sale).unwrap();
        assert_eq!(found.key.bytes, expected.to_bytes());
        assert_eq!(found.bump, bump);
        assert_ne!(found.key, sale);
    }
}

#[test]
fn vault_and_mint_authority_of_a_sale_differ() {
    for seed in 0..20u8 {
        let program = key(seed);
        let sale = key(seed.wrapping_add(50));
        let vault = derive_vault(&program, &sale).unwrap();
        let authority = derive_mint_authority(&program, &sale).unwrap();
        assert_ne!(vault.key, authority.key);
    }
}

#[test]
fn derivation_is_repeatable() {
    let program = key(1);
    let sale = key(2);
    assert_eq!(derive_vault(&program, &sale), derive_vault(&program, &sale));
    assert_eq!(
        derive_mint_authority(&program, &sale),
        derive_mint_authority(&program, &sale)
    );
    assert_eq!(holding_address(&program, &sale), holding_address(&program, &sale));
}

#[test]
fn derived_addresses_are_off_the_curve() {
    let program = key(3);
    let sale = key(4);
    let vault = derive_vault(&program, &sale).unwrap();
    assert!(!pubkey(&vault.key).is_on_curve());
    let rebuilt =
        Pubkey::create_program_address(&[b"vault", &sale.bytes, &[vault.bump]], &pubkey(&program))
            .unwrap();
    assert_eq!(rebuilt.to_bytes(), vault.key.bytes);
}

#[test]
fn holding_address_is_the_associated_token_address() {
    for seed in 0..40u8 {
        let owner = key(seed);
        let mint = key(seed.wrapping_add(77));
        let expected = anchor_spl::associated_token::get_associated_token_address(
            &pubkey(&owner),
            &pubkey(&mint),
        );
        let found = holding_address(&owner, &mint).unwrap();
        assert_eq!(found.bytes, expected.to_bytes());
        assert_ne!(found, owner);
        assert_ne!(found, mint);
    }
}

#[test]
fn holding_address_depends_on_the_order_of_owner_and_mint() {
    let owner = key(8);
    let mint = key(9);
    assert_ne!(holding_address(&owner, &mint), holding_address(&mint, &owner));
}

#[test]
fn initialize_derive_wires_the_three_addresses() {
    let program = key(11);
    let admin = key(12);
    let mint = Mint { key: key(13), decimals: 6, mint_authority: None, freeze_authority: None };
    let ctx = Initialize::derive(&program, admin, mint).unwrap();
    let (sale, sale_bump) =
        Pubkey::find_program_address(&[b"presale", &mint.key.bytes], &pubkey(&program));
    let (vault, vault_bump) =
        Pubkey::find_program_address(&[b"vault", sale.as_ref()], &pubkey(&program));
    let (authority, authority_bump) =
        Pubkey::find_program_address(&[b"mint-auth", sale.as_ref()], &pubkey(&program));
    assert_eq!(ctx.admin, admin);
    assert_eq!(ctx.mint, mint);
    assert_eq!(ctx.presale_key.bytes, sale.to_bytes());
    assert_eq!(ctx.vault.bytes, vault.to_bytes());
    assert_eq!(ctx.mint_authority.bytes, authority.to_bytes());
    assert_eq!(ctx.bumps.presale, sale_bump);
    assert_eq!(ctx.bumps.vault, vault_bump);
    assert_eq!(ctx.bumps.mint_authority, authority_bump);
    assert_eq!(ctx.presale, Presale::default());
}
