//! Derivation of the identities that the program controls: the sale record
//! of an asset, the custody account and the mint authority of a sale, and the
//! canonical holding account of a buyer.
//!
//! Each is found by the host's search for a program address over fixed seeds,
//! so anyone who knows the tags below can recompute it.

use crate::address::Address;
use vstd::prelude::*;

verus! {

/// The tag under which the sale record of an asset is derived: `presale`.
pub const SALE_TAG: [u8; 7] = [112, 114, 101, 115, 97, 108, 101];

/// The tag under which the custody account of a sale is derived: `vault`.
pub const VAULT_TAG: [u8; 5] = [118, 97, 117, 108, 116];

/// The tag under which the mint authority of a sale is derived: `mint-auth`.
pub const MINT_AUTHORITY_TAG: [u8; 9] = [109, 105, 110, 116, 45, 97, 117, 116, 104];

/// The identity of the token program that keeps the holding accounts.
pub const TOKEN_PROGRAM_ID: [u8; 32] = [
    6, 221, 246, 225, 215, 101, 161, 147, 217, 203, 225, 70, 206, 235, 121, 172,
    28, 180, 133, 237, 95, 91, 55, 145, 58, 140, 245, 133, 126, 255, 0, 169,
];

/// The identity of the program under which holding accounts are derived.
pub const ASSOCIATED_TOKEN_PROGRAM_ID: [u8; 32] = [
    140, 151, 37, 143, 78, 36, 137, 241, 187, 61, 16, 41, 20, 142, 13, 131,
    11, 90, 19, 153, 218, 255, 16, 132, 4, 142, 123, 216, 219, 233, 248, 89,
];

/// An identity found by the search, with the bump seed that completes its
/// seeds.
#[derive(Clone, Copy, Debug, PartialEq, Eq)]
pub struct DerivedAddress {
    pub key: Address,
    pub bump: u8,
}

impl View for DerivedAddress {
    type V = (Seq<u8>, u8);

    open spec fn view(&self) -> (Seq<u8>, u8) {
        (self.key@, self.bump)
    }
}

/// What the host's search for a program address yields for the given seeds
/// and program: the address and its bump seed, or `None` where the search
/// finds no address. The search depends on its arguments alone.
pub uninterp spec fn program_address(seeds: Seq<Seq<u8>>, program_id: Seq<u8>) -> Option<
    (Seq<u8>, u8),
>;

/// The seeds as sequences of bytes.
pub open spec fn seed_views(seeds: Seq<&[u8]>) -> Seq<Seq<u8>> {
    Seq::new(seeds.len(), |i: int| seeds[i]@)
}

/// Runs `Pubkey::try_find_program_address`, as `anchor_lang` hands it on
/// from the host's SDK, on the seeds and the program.
///
/// Trusted, not proved: the outcome is `program_address` of the same bytes,
/// that is, it depends on the seeds and the program alone. Nothing is
/// claimed of which address or bump seed comes out, nor that one is found.
/// The search returns `None` rather than fail, also where there are too many
/// seeds or a seed is too long.
#[verifier::external_body]
fn find_program_address(seeds: &Vec<&[u8]>, program_id: &Address) -> (found: Option<
    DerivedAddress,
>)
    ensures
        derived_view(found) == program_address(seed_views(seeds@), program_id@),
{
    let program = anchor_lang::prelude::Pubkey::new_from_array(program_id.bytes);
    match anchor_lang::prelude::Pubkey::try_find_program_address(seeds.as_slice(), &program) {
        Some((key, bump)) => Some(DerivedAddress { key: Address { bytes: key.to_bytes() }, bump }),
        None => None,
    }
}

/// The address derived for `tag` and `key` under `program_id`.
pub open spec fn tagged_address(tag: Seq<u8>, key: Seq<u8>, program_id: Seq<u8>) -> Option<
    (Seq<u8>, u8),
> {
    program_address(seq![tag, key], program_id)
}

/// The sale record of the asset `mint`.
pub open spec fn sale_record_spec(program_id: Seq<u8>, mint: Seq<u8>) -> Option<(Seq<u8>, u8)> {
    tagged_address(SALE_TAG@, mint, program_id)
}

/// The custody account of the sale recorded at `sale`.
pub open spec fn vault_spec(program_id: Seq<u8>, sale: Seq<u8>) -> Option<(Seq<u8>, u8)> {
    tagged_address(VAULT_TAG@, sale, program_id)
}

/// The mint and freeze authority of the sale recorded at `sale`.
pub open spec fn mint_authority_spec(program_id: Seq<u8>, sale: Seq<u8>) -> Option<
    (Seq<u8>, u8),
> {
    tagged_address(MINT_AUTHORITY_TAG@, sale, program_id)
}

/// The canonical holding account of `owner` for the asset `mint`: the
/// address that the associated-token program derives from the owner, the
/// token program and the asset, in this order.
pub open spec fn holding_address_spec(owner: Seq<u8>, mint: Seq<u8>) -> Option<Seq<u8>> {
    match program_address(
        seq![owner, TOKEN_PROGRAM_ID@, mint],
        ASSOCIATED_TOKEN_PROGRAM_ID@,
    ) {
        Some((key, _)) => Some(key),
        None => None,
    }
}

/// What was found, as bytes and bump seed.
pub open spec fn derived_view(found: Option<DerivedAddress>) -> Option<(Seq<u8>, u8)> {
    match found {
        Some(derived) => Some(derived@),
        None => None,
    }
}

/// What was found, as bytes.
pub open spec fn key_view(found: Option<Address>) -> Option<Seq<u8>> {
    match found {
        Some(key) => Some(key@),
        None => None,
    }
}

fn derive_tagged(tag: &[u8], key: &Address, program_id: &Address) -> (found: Option<
    DerivedAddress,
>)
    ensures
        derived_view(found) == tagged_address(tag@, key@, program_id@),
{
    let seeds: Vec<&[u8]> = vec![tag, key.bytes.as_slice()];
    assert(seed_views(seeds@) =~= seq![tag@, key@]);
    find_program_address(&seeds, program_id)
}

/// Derives the sale record of the asset `mint` under the program.
pub fn derive_sale_record(program_id: &Address, mint: &Address) -> (found: Option<DerivedAddress>)
    ensures
        derived_view(found) == sale_record_spec(program_id@, mint@),
{
    derive_tagged(SALE_TAG.as_slice(), mint, program_id)
}

/// Derives the custody account of the sale recorded at `sale`.
pub fn derive_vault(program_id: &Address, sale: &Address) -> (found: Option<DerivedAddress>)
    ensures
        derived_view(found) == vault_spec(program_id@, sale@),
{
    derive_tagged(VAULT_TAG.as_slice(), sale, program_id)
}

/// Derives the mint and freeze authority of the sale recorded at `sale`.
pub fn derive_mint_authority(program_id: &Address, sale: &Address) -> (found: Option<
    DerivedAddress,
>)
    ensures
        derived_view(found) == mint_authority_spec(program_id@, sale@),
{
    derive_tagged(MINT_AUTHORITY_TAG.as_slice(), sale, program_id)
}

/// Derives the canonical holding account of `owner` for the asset `mint`.
pub fn holding_address(owner: &Address, mint: &Address) -> (found: Option<Address>)
    ensures
        key_view(found) == holding_address_spec(owner@, mint@),
{
    let seeds: Vec<&[u8]> = vec![
        owner.bytes.as_slice(),
        TOKEN_PROGRAM_ID.as_slice(),
        mint.bytes.as_slice(),
    ];
    assert(seed_views(seeds@) =~= seq![owner@, TOKEN_PROGRAM_ID@, mint@]);
    let program = Address::new(ASSOCIATED_TOKEN_PROGRAM_ID);
    match find_program_address(&seeds, &program) {
        Some(derived) => Some(derived.key),
        None => None,
    }
}

} // verus!
