//! The durable record of a sale, the asset it sells, and the counters'
//! bookkeeping.

use crate::address::Address;
use crate::error::PresaleError;
use crate::pricing::{tokens_for, tokens_result};
use vstd::prelude::*;

verus! {

/// The asset on sale, as far as the sale reads it.
#[derive(Clone, Copy, Debug, PartialEq, Eq)]
pub struct Mint {
    /// The asset's identity.
    pub key: Address,
    /// The number of decimal places of one whole unit.
    pub decimals: u8,
    /// Who may issue the asset, if anyone.
    pub mint_authority: Option<Address>,
    /// Who may freeze holdings of the asset, if anyone.
    pub freeze_authority: Option<Address>,
}

/// The configuration and counters of one sale.
#[derive(Clone, Copy, Debug, PartialEq, Eq)]
pub struct Presale {
    /// The bump seed of the record's own address.
    pub bump: u8,
    /// The bump seed of the custody account.
    pub vault_bump: u8,
    /// The bump seed of the mint authority.
    pub mint_auth_bump: u8,
    /// Who may pause the sale and switch its phase.
    pub admin: Address,
    /// The asset on sale.
    pub mint: Address,
    /// The payment for one whole unit of the asset.
    pub price_lamports_per_token: u64,
    /// The least payment of one purchase.
    pub min_total: u64,
    /// The greatest payment of one purchase.
    pub max_total: u64,
    /// The payment received so far.
    pub total_raised: u64,
    /// The quantity issued so far.
    pub total_sold: u64,
    /// The quantity that may be issued in all.
    pub supply_cap: u64,
    /// Whether purchases are refused for now.
    pub paused: bool,
    /// Whether the later phase has begun.
    pub tge_live: bool,
}

/// The record of one purchase, for observers outside the ledger.
#[derive(Clone, Copy, Debug, PartialEq, Eq)]
pub struct Buy {
    pub buyer: Address,
    pub lamports: u64,
    pub tokens: u64,
}

impl Presale {
    /// The bytes that the record occupies in its account.
    pub const SIZE: usize = 1 + 1 + 1 + 32 + 32 + 8 + 8 + 8 + 8 + 8 + 8 + 1 + 1;

    /// The sale has not issued more than its cap.
    pub open spec fn within_cap(&self) -> bool {
        self.total_sold <= self.supply_cap
    }

    /// The payment bounds are in order.
    pub open spec fn limits_ordered(&self) -> bool {
        self.min_total <= self.max_total
    }

    /// The record differs from `before` in its two counters at most.
    pub open spec fn same_terms_as(&self, before: &Presale) -> bool {
        *self == (Presale {
            total_raised: self.total_raised,
            total_sold: self.total_sold,
            ..*before
        })
    }

    /// The payment passes the pause and both bounds and so reaches the
    /// check against the price, and the price is zero: that check has no
    /// answer.
    pub open spec fn price_check_undefined(&self, amount: u64) -> bool {
        &&& !self.paused
        &&& self.min_total <= amount <= self.max_total
        &&& self.price_lamports_per_token == 0
    }

    /// Why a payment of `amount` is refused before any money moves, if it
    /// is: the first check that fails, in the order pause, minimum, maximum,
    /// multiple of the price.
    pub open spec fn payment_refusal(&self, amount: u64) -> Option<PresaleError>
        recommends
            !self.price_check_undefined(amount),
    {
        if self.paused {
            Some(PresaleError::Unauthorized)
        } else if amount < self.min_total {
            Some(PresaleError::BelowMin)
        } else if amount > self.max_total {
            Some(PresaleError::AboveMax)
        } else if amount as int % self.price_lamports_per_token as int != 0 {
            Some(PresaleError::NotMultiple)
        } else {
            None
        }
    }

    /// The quantity that a payment of `amount` buys from this sale, for an
    /// asset of `decimals` decimal places: the priced quantity, refused where
    /// the cap does not leave that much.
    pub open spec fn quote_spec(&self, amount: u64, decimals: u8) -> Result<u64, PresaleError> {
        match tokens_result(amount, decimals, self.price_lamports_per_token) {
            Err(error) => Err(error),
            Ok(tokens) => if self.total_sold > self.supply_cap {
                Err(PresaleError::MathOverflow)
            } else if tokens > self.supply_cap - self.total_sold {
                Err(PresaleError::ExceedsSupplyCap)
            } else {
                Ok(tokens)
            },
        }
    }

    /// The record after a purchase of `tokens` for `amount` is booked, or
    /// why it cannot be booked: `MathOverflow` where the payment received
    /// would leave 64 bits or the sale has already issued more than its cap,
    /// `ExceedsSupplyCap` where the cap does not leave `tokens`.
    pub open spec fn settled_spec(&self, amount: u64, tokens: u64) -> Result<Presale, PresaleError> {
        if self.total_raised + amount > u64::MAX || self.total_sold > self.supply_cap {
            Err(PresaleError::MathOverflow)
        } else if tokens > self.supply_cap - self.total_sold {
            Err(PresaleError::ExceedsSupplyCap)
        } else {
            Ok(
                Presale {
                    total_raised: (self.total_raised + amount) as u64,
                    total_sold: (self.total_sold + tokens) as u64,
                    ..*self
                },
            )
        }
    }

    /// Whether a payment of `amount` reaches the check against a price of
    /// zero.
    pub fn is_price_check_undefined(&self, amount: u64) -> (undefined: bool)
        ensures
            undefined == self.price_check_undefined(amount),
    {
        !self.paused && self.min_total <= amount && amount <= self.max_total
            && self.price_lamports_per_token == 0
    }

    /// Checks a payment before any money moves. A paused sale and a payment
    /// out of bounds are refused whatever the price.
    pub fn check_payment(&self, amount: u64) -> (checked: Result<(), PresaleError>)
        requires
            !self.price_check_undefined(amount),
        ensures
            match checked {
                Ok(()) => self.payment_refusal(amount) is None,
                Err(error) => self.payment_refusal(amount) == Some(error),
            },
    {
        if self.paused {
            return Err(PresaleError::Unauthorized);
        }
        if amount < self.min_total {
            return Err(PresaleError::BelowMin);
        }
        if amount > self.max_total {
            return Err(PresaleError::AboveMax);
        }
        if amount % self.price_lamports_per_token != 0 {
            return Err(PresaleError::NotMultiple);
        }
        Ok(())
    }

    /// Computes the quantity that a payment buys and holds it against what
    /// the cap leaves.
    pub fn quote(&self, amount: u64, decimals: u8) -> (quoted: Result<u64, PresaleError>)
        ensures
            quoted == self.quote_spec(amount, decimals),
    {
        let tokens = match tokens_for(amount, decimals, self.price_lamports_per_token) {
            Ok(tokens) => tokens,
            Err(error) => {
                return Err(error);
            },
        };
        let remaining = match self.supply_cap.checked_sub(self.total_sold) {
            Some(remaining) => remaining,
            None => {
                return Err(PresaleError::MathOverflow);
            },
        };
        if tokens > remaining {
            return Err(PresaleError::ExceedsSupplyCap);
        }
        Ok(tokens)
    }

    /// Books a purchase: both counters grow together, or neither does.
    ///
    /// The quantity is held against what the cap leaves once more, so that
    /// no booking can take the quantity issued past the cap; the payment
    /// received must stay within 64 bits.
    pub fn settle(&mut self, amount: u64, tokens: u64) -> (booked: Result<(), PresaleError>)
        ensures
            match booked {
                Ok(()) => old(self).settled_spec(amount, tokens) == Ok::<Presale, PresaleError>(
                    *final(self),
                ),
                Err(error) => old(self).settled_spec(amount, tokens) == Err::<
                    Presale,
                    PresaleError,
                >(error) && *final(self) == *old(self),
            },
    {
        let raised = match self.total_raised.checked_add(amount) {
            Some(raised) => raised,
            None => {
                return Err(PresaleError::MathOverflow);
            },
        };
        let remaining = match self.supply_cap.checked_sub(self.total_sold) {
            Some(remaining) => remaining,
            None => {
                return Err(PresaleError::MathOverflow);
            },
        };
        if tokens > remaining {
            return Err(PresaleError::ExceedsSupplyCap);
        }
        self.total_raised = raised;
        self.total_sold = self.total_sold + tokens;
        Ok(())
    }
}

impl Default for Presale {
    /// The record of an account that was just allocated: all zero.
    fn default() -> (blank: Presale)
        ensures
            blank.is_blank(),
    {
        Presale {
            bump: 0,
            vault_bump: 0,
            mint_auth_bump: 0,
            admin: Address::zero(),
            mint: Address::zero(),
            price_lamports_per_token: 0,
            min_total: 0,
            max_total: 0,
            total_raised: 0,
            total_sold: 0,
            supply_cap: 0,
            paused: false,
            tge_live: false,
        }
    }
}

impl Presale {
    /// The record is that of an account that was just allocated: all zero.
    pub open spec fn is_blank(&self) -> bool {
        &&& self.bump == 0
        &&& self.vault_bump == 0
        &&& self.mint_auth_bump == 0
        &&& self.admin.is_zero()
        &&& self.mint.is_zero()
        &&& self.price_lamports_per_token == 0
        &&& self.min_total == 0
        &&& self.max_total == 0
        &&& self.total_raised == 0
        &&& self.total_sold == 0
        &&& self.supply_cap == 0
        &&& !self.paused
        &&& !self.tge_live
    }
}

} // verus!
