//! The one-time creation of a sale record for an asset.

use crate::address::Address;
use crate::derivation::{
    derive_mint_authority, derive_sale_record, derive_vault, key_view, mint_authority_spec,
    sale_record_spec, vault_spec,
};
use crate::error::PresaleError;
use crate::pricing::{supply_cap_for, supply_cap_spec};
use crate::state::{Mint, Presale};
use vstd::prelude::*;

verus! {

/// The bump seeds of the three derived addresses of a sale.
#[derive(Clone, Copy, Debug, PartialEq, Eq, Structural)]
pub struct InitializeBumps {
    pub presale: u8,
    pub vault: u8,
    pub mint_authority: u8,
}

/// What the creation of a sale works on: who creates it, the asset, the
/// record to fill and the derived identities of the sale.
#[derive(Clone, Copy, Debug, PartialEq, Eq)]
pub struct Initialize {
    /// Who creates the sale and will manage it.
    pub admin: Address,
    /// The asset to be sold.
    pub mint: Mint,
    /// The address of the sale record.
    pub presale_key: Address,
    /// The sale record, to be filled.
    pub presale: Presale,
    /// The custody account.
    pub vault: Address,
    /// The authority that must already control issuance and freeze.
    pub mint_authority: Address,
    /// The bump seeds of the three addresses above.
    pub bumps: InitializeBumps,
}

/// Whether the three identities of a sale of the asset `mint` can be derived
/// under `program_id`.
pub open spec fn derivable(program_id: Seq<u8>, mint: Seq<u8>) -> bool {
    match sale_record_spec(program_id, mint) {
        Some((sale, _)) => vault_spec(program_id, sale) is Some && mint_authority_spec(
            program_id,
            sale,
        ) is Some,
        None => false,
    }
}

impl Initialize {
    /// The addresses and bump seeds are those derived under `program_id`:
    /// the sale record from the asset, the custody account and the mint
    /// authority from the sale record.
    pub open spec fn wired_by(self, program_id: Seq<u8>) -> bool {
        &&& sale_record_spec(program_id, self.mint.key@) == Some(
            (self.presale_key@, self.bumps.presale),
        )
        &&& vault_spec(program_id, self.presale_key@) == Some((self.vault@, self.bumps.vault))
        &&& mint_authority_spec(program_id, self.presale_key@) == Some(
            (self.mint_authority@, self.bumps.mint_authority),
        )
    }

    /// Why the creation is refused, if it is: the first check that fails, in
    /// the order payment bounds, supply cap, issuance authority, freeze
    /// authority.
    pub open spec fn refusal(self, min_total: u64, max_total: u64) -> Option<PresaleError> {
        if min_total > max_total {
            Some(PresaleError::InvalidLimits)
        } else if supply_cap_spec(self.mint.decimals) > u64::MAX {
            Some(PresaleError::MathOverflow)
        } else if key_view(self.mint.mint_authority) != Some(self.mint_authority@) {
            Some(PresaleError::MintAuthorityNotSet)
        } else if key_view(self.mint.freeze_authority) != Some(self.mint_authority@) {
            Some(PresaleError::FreezeAuthorityNotSet)
        } else {
            None
        }
    }

    /// The record of the new sale: the caller as admin, the asset, the three
    /// parameters, zeroed counters, both flags off, and the supply cap of the
    /// asset's precision.
    pub open spec fn record_spec(self, price: u64, min_total: u64, max_total: u64) -> Presale {
        Presale {
            bump: self.bumps.presale,
            vault_bump: self.bumps.vault,
            mint_auth_bump: self.bumps.mint_authority,
            admin: self.admin,
            mint: self.mint.key,
            price_lamports_per_token: price,
            min_total,
            max_total,
            total_raised: 0,
            total_sold: 0,
            supply_cap: supply_cap_spec(self.mint.decimals) as u64,
            paused: false,
            tge_live: false,
        }
    }

    /// Derives the identities of a sale of `mint` under `program_id` and
    /// lays out what its creation works on, with a blank record. `None`
    /// where one of the three derivations finds no address.
    pub fn derive(program_id: &Address, admin: Address, mint: Mint) -> (found: Option<Initialize>)
        ensures
            found is Some <==> derivable(program_id@, mint.key@),
            found matches Some(ctx) ==> {
                &&& ctx.wired_by(program_id@)
                &&& ctx.admin == admin
                &&& ctx.mint == mint
                &&& ctx.presale.is_blank()
            },
    {
        let sale = match derive_sale_record(program_id, &mint.key) {
            Some(sale) => sale,
            None => {
                return None;
            },
        };
        let vault = match derive_vault(program_id, &sale.key) {
            Some(vault) => vault,
            None => {
                return None;
            },
        };
        let authority = match derive_mint_authority(program_id, &sale.key) {
            Some(authority) => authority,
            None => {
                return None;
            },
        };
        Some(
            Initialize {
                admin,
                mint,
                presale_key: sale.key,
                presale: Presale::default(),
                vault: vault.key,
                mint_authority: authority.key,
                bumps: InitializeBumps {
                    presale: sale.bump,
                    vault: vault.bump,
                    mint_authority: authority.bump,
                },
            },
        )
    }
}

/// Whether `holder` is set and is `expected`.
fn is_held_by(holder: &Option<Address>, expected: &Address) -> (held: bool)
    ensures
        held == (key_view(*holder) == Some(expected@)),
{
    match holder {
        Some(key) => *key == *expected,
        None => false,
    }
}

/// Creates the sale: fills the record, or refuses and writes nothing.
///
/// Refused with `InvalidLimits` where the bounds are inverted, with
/// `MathOverflow` where the scaled supply cap leaves 64 bits, and with
/// `MintAuthorityNotSet` or `FreezeAuthorityNotSet` where the asset's
/// issuance or freeze authority is not the sale's mint authority.
pub fn initialize(
    ctx: &mut Initialize,
    price_lamports_per_token: u64,
    min_total: u64,
    max_total: u64,
) -> (created: Result<(), PresaleError>)
    ensures
        match created {
            Ok(()) => {
                &&& old(ctx).refusal(min_total, max_total) is None
                &&& *final(ctx) == (Initialize {
                    presale: old(ctx).record_spec(price_lamports_per_token, min_total, max_total),
                    ..*old(ctx)
                })
            },
            Err(error) => {
                &&& old(ctx).refusal(min_total, max_total) == Some(error)
                &&& *final(ctx) == *old(ctx)
            },
        },
        min_total > max_total ==> created == Err::<(), PresaleError>(PresaleError::InvalidLimits),
        created is Ok ==> {
            &&& final(ctx).presale.limits_ordered()
            &&& final(ctx).presale.within_cap()
            &&& final(ctx).presale.supply_cap == supply_cap_spec(old(ctx).mint.decimals)
        },
{
    if min_total > max_total {
        return Err(PresaleError::InvalidLimits);
    }
    let supply_cap = match supply_cap_for(ctx.mint.decimals) {
        Ok(supply_cap) => supply_cap,
        Err(error) => {
            return Err(error);
        },
    };
    if !is_held_by(&ctx.mint.mint_authority, &ctx.mint_authority) {
        return Err(PresaleError::MintAuthorityNotSet);
    }
    if !is_held_by(&ctx.mint.freeze_authority, &ctx.mint_authority) {
        return Err(PresaleError::FreezeAuthorityNotSet);
    }
    ctx.presale = Presale {
        bump: ctx.bumps.presale,
        vault_bump: ctx.bumps.vault,
        mint_auth_bump: ctx.bumps.mint_authority,
        admin: ctx.admin,
        mint: ctx.mint.key,
        price_lamports_per_token,
        min_total,
        max_total,
        total_raised: 0,
        total_sold: 0,
        supply_cap,
        paused: false,
        tge_live: false,
    };
    Ok(())
}

} // verus!
