//! The purchase engine.
//!
//! A purchase alternates decisions of the sale with work that only the host
//! can do: moving the payment, creating the buyer's holding account, issuing
//! the asset and freezing the holding. The decisions are one step function:
//! from the purchase as it stands and the event that arrived, to the purchase
//! as it stands next and the action the host is asked for. The caller runs
//! the action and reports its completion; if the host fails an action, the
//! caller abandons the purchase and the host undoes what was done.

use crate::address::Address;
use crate::derivation::{holding_address, holding_address_spec, key_view};
use crate::error::PresaleError;
use crate::state::{Buy, Mint, Presale};
use vstd::prelude::*;

verus! {

/// The account that is to receive the asset, as the purchase reads it.
#[derive(Clone, Copy, Debug, PartialEq, Eq)]
pub struct HoldingAccount {
    /// The account's identity.
    pub key: Address,
    /// Whether the account holds no data yet, that is, does not exist.
    pub data_is_empty: bool,
}

/// How far a purchase has come.
#[derive(Clone, Copy, Debug, PartialEq, Eq)]
pub enum PurchaseStage {
    /// Nothing has been asked for yet.
    Idle,
    /// The payment's transfer into custody has been asked for.
    Paying { amount: u64 },
    /// The creation of the buyer's holding account has been asked for.
    Provisioning { amount: u64, tokens: u64 },
    /// The issuance to the holding account has been asked for.
    Issuing { amount: u64, tokens: u64 },
    /// The freeze of the holding account has been asked for.
    Locking { amount: u64, tokens: u64 },
    /// The purchase is booked.
    Settled,
    /// The purchase was refused.
    Rejected,
}

/// What the caller reports to the engine.
#[derive(Clone, Copy, Debug, PartialEq, Eq)]
pub enum PurchaseEvent {
    /// The buyer asks to pay `amount_lamports`.
    Requested { amount_lamports: u64 },
    /// The host has carried out the action that the engine asked for last.
    Completed,
}

/// The seeds with which the program signs as the mint authority of a sale:
/// the mint authority's tag, the sale record's address and the bump seed.
#[derive(Clone, Copy, Debug, PartialEq, Eq)]
pub struct SignerSeeds {
    pub sale: Address,
    pub bump: u8,
}

/// What the engine asks of the caller.
#[derive(Clone, Copy, Debug, PartialEq, Eq)]
pub enum PurchaseAction {
    /// The event does not fit the stage and was ignored.
    Nothing,
    /// Move `lamports` from `from` into the custody account `to`.
    Transfer { from: Address, to: Address, lamports: u64 },
    /// Create the holding account of `owner` for `mint`, paid by `payer`.
    CreateHolding { payer: Address, holding: Address, owner: Address, mint: Address },
    /// Issue `amount` of `mint` to the holding account `to`.
    MintTo { mint: Address, to: Address, authority: Address, signer: SignerSeeds, amount: u64 },
    /// Freeze the holding account.
    FreezeAccount { account: Address, mint: Address, authority: Address, signer: SignerSeeds },
    /// Publish the record of the booked purchase; nothing further follows.
    Emit { record: Buy },
    /// Fail the whole purchase with `error`; nothing further follows.
    Reject { error: PresaleError },
}

/// One purchase: the identities and accounts it touches, the sale record it
/// reads and books to, and the stage it has reached.
#[derive(Clone, Copy, Debug, PartialEq, Eq)]
pub struct Purchase {
    /// Who pays and receives.
    pub buyer: Address,
    /// The address of the sale record.
    pub presale_key: Address,
    /// The sale record.
    pub presale: Presale,
    /// The asset handed in; a purchase is honoured only where it is the
    /// asset of the sale.
    pub mint: Mint,
    /// The authority that signs issuance and freeze.
    pub mint_authority: Address,
    /// The custody account that receives the payment.
    pub vault: Address,
    /// The buyer's holding account.
    pub buyer_ata: HoldingAccount,
    /// How far the purchase has come.
    pub stage: PurchaseStage,
}

impl Purchase {
    /// The seeds that sign for the mint authority of this purchase's sale.
    pub open spec fn signer_spec(self) -> SignerSeeds {
        SignerSeeds { sale: self.presale_key, bump: self.presale.mint_auth_bump }
    }

    /// The request to issue `tokens` to the buyer's holding account.
    pub open spec fn mint_to_spec(self, tokens: u64) -> PurchaseAction {
        PurchaseAction::MintTo {
            mint: self.mint.key,
            to: self.buyer_ata.key,
            authority: self.mint_authority,
            signer: self.signer_spec(),
            amount: tokens,
        }
    }

    /// The request to freeze the buyer's holding account.
    pub open spec fn freeze_spec(self) -> PurchaseAction {
        PurchaseAction::FreezeAccount {
            account: self.buyer_ata.key,
            mint: self.mint.key,
            authority: self.mint_authority,
            signer: self.signer_spec(),
        }
    }

    /// The request to create the buyer's holding account.
    pub open spec fn create_holding_spec(self) -> PurchaseAction {
        PurchaseAction::CreateHolding {
            payer: self.buyer,
            holding: self.buyer_ata.key,
            owner: self.buyer,
            mint: self.mint.key,
        }
    }

    /// The purchase moved to `stage`, all else unchanged.
    pub open spec fn at_stage(self, stage: PurchaseStage) -> Purchase {
        Purchase { stage, ..self }
    }

    /// The request reaches the check of its payment against a price of
    /// zero, which has no answer.
    pub open spec fn undefined_on(self, event: PurchaseEvent) -> bool {
        &&& self.stage is Idle
        &&& event matches PurchaseEvent::Requested { amount_lamports }
        &&& self.presale.price_check_undefined(amount_lamports)
    }

    /// The terms on which a received payment of `amount` is honoured: the
    /// quantity quoted by the sale, provided that the asset handed in is the
    /// asset of the sale and the holding account supplied is `canonical`, the
    /// one derived for the buyer and the asset of the sale. Anything else is
    /// `Unauthorized`.
    pub open spec fn terms_spec(self, amount: u64, canonical: Option<Seq<u8>>) -> Result<
        u64,
        PresaleError,
    > {
        match self.presale.quote_spec(amount, self.mint.decimals) {
            Err(error) => Err(error),
            Ok(tokens) => if self.mint.key@ == self.presale.mint@ && canonical == Some(
                self.buyer_ata.key@,
            ) {
                Ok(tokens)
            } else {
                Err(PresaleError::Unauthorized)
            },
        }
    }

    /// The step on a request to pay `amount`.
    pub open spec fn requested_spec(self, amount: u64) -> (Purchase, PurchaseAction) {
        match self.presale.payment_refusal(amount) {
            Some(error) => (
                self.at_stage(PurchaseStage::Rejected),
                PurchaseAction::Reject { error },
            ),
            None => (
                self.at_stage(PurchaseStage::Paying { amount }),
                PurchaseAction::Transfer { from: self.buyer, to: self.vault, lamports: amount },
            ),
        }
    }

    /// The step once the payment of `amount` is in custody.
    pub open spec fn paid_spec(self, amount: u64, canonical: Option<Seq<u8>>) -> (
        Purchase,
        PurchaseAction,
    ) {
        match self.terms_spec(amount, canonical) {
            Err(error) => (
                self.at_stage(PurchaseStage::Rejected),
                PurchaseAction::Reject { error },
            ),
            Ok(tokens) => if self.buyer_ata.data_is_empty {
                (
                    self.at_stage(PurchaseStage::Provisioning { amount, tokens }),
                    self.create_holding_spec(),
                )
            } else {
                (self.at_stage(PurchaseStage::Issuing { amount, tokens }), self.mint_to_spec(tokens))
            },
        }
    }

    /// The step once the holding account has been created.
    pub open spec fn provisioned_spec(self, amount: u64, tokens: u64) -> (Purchase, PurchaseAction) {
        (
            Purchase {
                stage: PurchaseStage::Issuing { amount, tokens },
                buyer_ata: HoldingAccount { key: self.buyer_ata.key, data_is_empty: false },
                ..self
            },
            self.mint_to_spec(tokens),
        )
    }

    /// The step once the asset has been issued.
    pub open spec fn issued_spec(self, amount: u64, tokens: u64) -> (Purchase, PurchaseAction) {
        (self.at_stage(PurchaseStage::Locking { amount, tokens }), self.freeze_spec())
    }

    /// The step once the holding account has been frozen: the purchase is
    /// booked and its record published.
    pub open spec fn locked_spec(self, amount: u64, tokens: u64) -> (Purchase, PurchaseAction) {
        match self.presale.settled_spec(amount, tokens) {
            Err(error) => (
                self.at_stage(PurchaseStage::Rejected),
                PurchaseAction::Reject { error },
            ),
            Ok(presale) => (
                Purchase { stage: PurchaseStage::Settled, presale, ..self },
                PurchaseAction::Emit {
                    record: Buy { buyer: self.buyer, lamports: amount, tokens },
                },
            ),
        }
    }

    /// The step function of the engine. `canonical` is the holding account
    /// derived for the buyer and the asset of the sale; it is read only when
    /// the payment has just arrived.
    pub open spec fn step_spec(self, event: PurchaseEvent, canonical: Option<Seq<u8>>) -> (
        Purchase,
        PurchaseAction,
    ) {
        match (self.stage, event) {
            (PurchaseStage::Idle, PurchaseEvent::Requested { amount_lamports }) => {
                self.requested_spec(amount_lamports)
            },
            (PurchaseStage::Paying { amount }, PurchaseEvent::Completed) => {
                self.paid_spec(amount, canonical)
            },
            (PurchaseStage::Provisioning { amount, tokens }, PurchaseEvent::Completed) => {
                self.provisioned_spec(amount, tokens)
            },
            (PurchaseStage::Issuing { amount, tokens }, PurchaseEvent::Completed) => {
                self.issued_spec(amount, tokens)
            },
            (PurchaseStage::Locking { amount, tokens }, PurchaseEvent::Completed) => {
                self.locked_spec(amount, tokens)
            },
            _ => (self, PurchaseAction::Nothing),
        }
    }

    /// A purchase that has not begun.
    pub fn new(
        buyer: Address,
        presale_key: Address,
        presale: Presale,
        mint: Mint,
        mint_authority: Address,
        vault: Address,
        buyer_ata: HoldingAccount,
    ) -> (ctx: Purchase)
        ensures
            ctx == (Purchase {
                buyer,
                presale_key,
                presale,
                mint,
                mint_authority,
                vault,
                buyer_ata,
                stage: PurchaseStage::Idle,
            }),
    {
        Purchase {
            buyer,
            presale_key,
            presale,
            mint,
            mint_authority,
            vault,
            buyer_ata,
            stage: PurchaseStage::Idle,
        }
    }

    /// The seeds that sign for the mint authority.
    pub fn signer(&self) -> (seeds: SignerSeeds)
        ensures
            seeds == self.signer_spec(),
    {
        SignerSeeds { sale: self.presale_key, bump: self.presale.mint_auth_bump }
    }

    fn mint_to(&self, tokens: u64) -> (action: PurchaseAction)
        ensures
            action == self.mint_to_spec(tokens),
    {
        PurchaseAction::MintTo {
            mint: self.mint.key,
            to: self.buyer_ata.key,
            authority: self.mint_authority,
            signer: self.signer(),
            amount: tokens,
        }
    }

    /// Settles the terms of a payment that has arrived, given the holding
    /// account derived for the buyer and the asset of the sale.
    pub fn terms(&self, amount: u64, canonical: Option<Address>) -> (terms: Result<
        u64,
        PresaleError,
    >)
        ensures
            terms == self.terms_spec(amount, key_view(canonical)),
    {
        let tokens = match self.presale.quote(amount, self.mint.decimals) {
            Ok(tokens) => tokens,
            Err(error) => {
                return Err(error);
            },
        };
        if self.mint.key != self.presale.mint {
            return Err(PresaleError::Unauthorized);
        }
        match canonical {
            Some(key) => {
                if self.buyer_ata.key == key {
                    Ok(tokens)
                } else {
                    Err(PresaleError::Unauthorized)
                }
            },
            None => Err(PresaleError::Unauthorized),
        }
    }
}

/// One step of the engine, given the holding account derived for the buyer
/// and the asset of the sale.
///
/// The purchase and the action are exactly those of `step_spec`: a request
/// is checked and answered with the transfer of the payment; each completion
/// moves the purchase to the next piece of work; the completion of the freeze
/// books the purchase. A refusal changes nothing but the stage. Whatever the
/// step, the sale record changes in its counters at most, neither counter
/// shrinks, and the quantity issued stays within the cap if it was.
pub fn purchase_step(ctx: &mut Purchase, event: PurchaseEvent, canonical: Option<Address>) -> (action:
    PurchaseAction)
    requires
        !old(ctx).undefined_on(event),
    ensures
        (*final(ctx), action) == old(ctx).step_spec(event, key_view(canonical)),
        final(ctx).presale.same_terms_as(&old(ctx).presale),
        final(ctx).presale.total_raised >= old(ctx).presale.total_raised,
        final(ctx).presale.total_sold >= old(ctx).presale.total_sold,
        old(ctx).presale.within_cap() ==> final(ctx).presale.within_cap(),
        !(action is Emit) ==> final(ctx).presale == old(ctx).presale,
{
    match (ctx.stage, event) {
        (PurchaseStage::Idle, PurchaseEvent::Requested { amount_lamports }) => {
            match ctx.presale.check_payment(amount_lamports) {
                Err(error) => {
                    ctx.stage = PurchaseStage::Rejected;
                    PurchaseAction::Reject { error }
                },
                Ok(()) => {
                    ctx.stage = PurchaseStage::Paying { amount: amount_lamports };
                    PurchaseAction::Transfer {
                        from: ctx.buyer,
                        to: ctx.vault,
                        lamports: amount_lamports,
                    }
                },
            }
        },
        (PurchaseStage::Paying { amount }, PurchaseEvent::Completed) => {
            match ctx.terms(amount, canonical) {
                Err(error) => {
                    ctx.stage = PurchaseStage::Rejected;
                    PurchaseAction::Reject { error }
                },
                Ok(tokens) => {
                    if ctx.buyer_ata.data_is_empty {
                        ctx.stage = PurchaseStage::Provisioning { amount, tokens };
                        PurchaseAction::CreateHolding {
                            payer: ctx.buyer,
                            holding: ctx.buyer_ata.key,
                            owner: ctx.buyer,
                            mint: ctx.mint.key,
                        }
                    } else {
                        ctx.stage = PurchaseStage::Issuing { amount, tokens };
                        ctx.mint_to(tokens)
                    }
                },
            }
        },
        (PurchaseStage::Provisioning { amount, tokens }, PurchaseEvent::Completed) => {
            let action = ctx.mint_to(tokens);
            ctx.buyer_ata.data_is_empty = false;
            ctx.stage = PurchaseStage::Issuing { amount, tokens };
            action
        },
        (PurchaseStage::Issuing { amount, tokens }, PurchaseEvent::Completed) => {
            ctx.stage = PurchaseStage::Locking { amount, tokens };
            PurchaseAction::FreezeAccount {
                account: ctx.buyer_ata.key,
                mint: ctx.mint.key,
                authority: ctx.mint_authority,
                signer: ctx.signer(),
            }
        },
        (PurchaseStage::Locking { amount, tokens }, PurchaseEvent::Completed) => {
            match ctx.presale.settle(amount, tokens) {
                Err(error) => {
                    ctx.stage = PurchaseStage::Rejected;
                    PurchaseAction::Reject { error }
                },
                Ok(()) => {
                    ctx.stage = PurchaseStage::Settled;
                    PurchaseAction::Emit {
                        record: Buy { buyer: ctx.buyer, lamports: amount, tokens },
                    }
                },
            }
        },
        _ => PurchaseAction::Nothing,
    }
}

/// One step of the engine: derives the buyer's canonical holding account
/// for the asset of the sale where the step reads it, and takes the step.
///
/// A payment is honoured only into the holding account derived for the buyer
/// and the sale's own asset, and only where the asset handed in is that
/// asset; otherwise the step that follows the payment rejects the purchase
/// as `Unauthorized`.
pub fn purchase(ctx: &mut Purchase, event: PurchaseEvent) -> (action: PurchaseAction)
    requires
        !old(ctx).undefined_on(event),
    ensures
        (*final(ctx), action) == old(ctx).step_spec(
            event,
            holding_address_spec(old(ctx).buyer@, old(ctx).presale.mint@),
        ),
        final(ctx).presale.same_terms_as(&old(ctx).presale),
        final(ctx).presale.total_raised >= old(ctx).presale.total_raised,
        final(ctx).presale.total_sold >= old(ctx).presale.total_sold,
        old(ctx).presale.within_cap() ==> final(ctx).presale.within_cap(),
        !(action is Emit) ==> final(ctx).presale == old(ctx).presale,
{
    let canonical = match (ctx.stage, event) {
        (PurchaseStage::Paying { .. }, PurchaseEvent::Completed) => holding_address(
            &ctx.buyer,
            &ctx.presale.mint,
        ),
        _ => None,
    };
    purchase_step(ctx, event, canonical)
}

} // verus!
