//! What holds of the sale whatever is asked of it.
//!
//! The laws speak of the engine's step function and of whole runs of it: a
//! run is a request followed by the completion of every action that the
//! engine asks for, up to the action that ends the purchase.

use crate::address::{lemma_address_ext, Address};
use crate::derivation::{derived_view, key_view, DerivedAddress};
use crate::error::PresaleError;
use crate::pricing::{pow10, supply_cap_spec, tokens_result, tokens_spec, MAX_CAP_DECIMALS};
use crate::purchase::{HoldingAccount, Purchase, PurchaseAction, PurchaseEvent, PurchaseStage};
use crate::state::{Buy, Presale};
use vstd::prelude::*;

verus! {

impl PurchaseAction {
    /// The action ends the purchase, or answers an event that did not fit.
    pub open spec fn is_last(self) -> bool {
        self is Emit || self is Reject || self is Nothing
    }
}

impl PurchaseStage {
    /// How many pieces of work lie behind the stage.
    pub open spec fn rank(self) -> nat {
        match self {
            PurchaseStage::Idle => 0,
            PurchaseStage::Paying { .. } => 1,
            PurchaseStage::Provisioning { .. } => 2,
            PurchaseStage::Issuing { .. } => 3,
            PurchaseStage::Locking { .. } => 4,
            PurchaseStage::Settled => 5,
            PurchaseStage::Rejected => 5,
        }
    }
}

impl Purchase {
    /// The purchase and the actions asked so far, after up to `steps`
    /// further completions, stopping at the action that ends the purchase.
    pub open spec fn resume_spec(
        self,
        canonical: Option<Seq<u8>>,
        asked: Seq<PurchaseAction>,
        steps: nat,
    ) -> (Purchase, Seq<PurchaseAction>)
        decreases steps,
    {
        if steps == 0 || asked.len() == 0 || asked.last().is_last() {
            (self, asked)
        } else {
            let (next, action) = self.step_spec(PurchaseEvent::Completed, canonical);
            next.resume_spec(canonical, asked.push(action), (steps - 1) as nat)
        }
    }

    /// A whole run: the request to pay `amount`, then the completion of
    /// every action asked for. Yields the purchase at the end and the
    /// actions in the order in which they were asked.
    pub open spec fn run_spec(self, amount: u64, canonical: Option<Seq<u8>>) -> (
        Purchase,
        Seq<PurchaseAction>,
    ) {
        let (next, action) = self.step_spec(
            PurchaseEvent::Requested { amount_lamports: amount },
            canonical,
        );
        next.resume_spec(canonical, seq![action], 4)
    }

    /// What a run comes to: the record of the purchase, or the first check
    /// that fails, in the order payment checks, quantity, supply cap,
    /// holding account, bookkeeping.
    pub open spec fn outcome_spec(self, amount: u64, canonical: Option<Seq<u8>>) -> Result<
        Buy,
        PresaleError,
    > {
        match self.presale.payment_refusal(amount) {
            Some(error) => Err(error),
            None => match self.terms_spec(amount, canonical) {
                Err(error) => Err(error),
                Ok(tokens) => match self.presale.settled_spec(amount, tokens) {
                    Err(error) => Err(error),
                    Ok(_) => Ok(Buy { buyer: self.buyer, lamports: amount, tokens }),
                },
            },
        }
    }

    /// A whole run written out: where it ends and what it asks for, by the
    /// check that decides it.
    ///
    /// A payment refused by the payment checks asks for nothing but the
    /// rejection. One refused by the terms asks for the transfer and the
    /// rejection. Any other asks for the transfer, the creation of the
    /// holding account if that is absent, the issuance and the freeze, and
    /// ends with the publication of the record or, where the booking fails,
    /// with a rejection.
    pub open spec fn written_out_spec(self, amount: u64, canonical: Option<Seq<u8>>) -> (
        Purchase,
        Seq<PurchaseAction>,
    ) {
        let transfer = PurchaseAction::Transfer {
            from: self.buyer,
            to: self.vault,
            lamports: amount,
        };
        match self.presale.payment_refusal(amount) {
            Some(error) => (
                self.at_stage(PurchaseStage::Rejected),
                seq![PurchaseAction::Reject { error }],
            ),
            None => match self.terms_spec(amount, canonical) {
                Err(error) => (
                    self.at_stage(PurchaseStage::Rejected),
                    seq![transfer, PurchaseAction::Reject { error }],
                ),
                Ok(tokens) => {
                    let held = Purchase {
                        buyer_ata: HoldingAccount { key: self.buyer_ata.key, data_is_empty: false },
                        ..self
                    };
                    let (end, last) = match self.presale.settled_spec(amount, tokens) {
                        Err(error) => (
                            held.at_stage(PurchaseStage::Rejected),
                            PurchaseAction::Reject { error },
                        ),
                        Ok(presale) => (
                            Purchase { stage: PurchaseStage::Settled, presale, ..held },
                            PurchaseAction::Emit {
                                record: Buy { buyer: self.buyer, lamports: amount, tokens },
                            },
                        ),
                    };
                    if self.buyer_ata.data_is_empty {
                        (
                            end,
                            seq![
                                transfer,
                                self.create_holding_spec(),
                                self.mint_to_spec(tokens),
                                self.freeze_spec(),
                                last,
                            ],
                        )
                    } else {
                        (end, seq![transfer, self.mint_to_spec(tokens), self.freeze_spec(), last])
                    }
                },
            },
        }
    }
}

/// The sale record after a sequence of steps of the engine, each taken by
/// some purchase on the record as the step before left it.
pub open spec fn record_after(
    sale: Presale,
    steps: Seq<(Purchase, PurchaseEvent, Option<Seq<u8>>)>,
) -> Presale
    decreases steps.len(),
{
    if steps.len() == 0 {
        sale
    } else {
        let (ctx, event, canonical) = steps.last();
        let before = record_after(sale, steps.drop_last());
        (Purchase { presale: before, ..ctx }).step_spec(event, canonical).0.presale
    }
}

/// A derivation is a function of its inputs: two results that stand for the
/// same outcome of the search are the same address and the same bump seed.
pub proof fn lemma_derivation_is_repeatable(
    first: Option<DerivedAddress>,
    second: Option<DerivedAddress>,
)
    requires
        derived_view(first) == derived_view(second),
    ensures
        first == second,
{
    if let (Some(a), Some(b)) = (first, second) {
        lemma_address_ext(a.key, b.key);
    }
}

/// Two holding accounts that stand for the same outcome of the search are
/// the same account.
pub proof fn lemma_holding_is_repeatable(first: Option<Address>, second: Option<Address>)
    requires
        key_view(first) == key_view(second),
    ensures
        first == second,
{
    if let (Some(a), Some(b)) = (first, second) {
        lemma_address_ext(a, b);
    }
}

/// The supply cap fits the counters exactly for assets of up to eleven
/// decimal places.
pub proof fn lemma_supply_cap_fits(decimals: u8)
    ensures
        supply_cap_spec(decimals) <= u64::MAX <==> decimals <= MAX_CAP_DECIMALS,
{
    reveal_with_fuel(pow10, 13);
    assert(pow10(11) == 100_000_000_000);
    assert(pow10(12) == 1_000_000_000_000);
    if decimals <= 11 {
        crate::pricing::lemma_pow10_increases(decimals as nat, 11);
        assert(69_420_000 * pow10(decimals as nat) <= 69_420_000 * 100_000_000_000)
            by (nonlinear_arith)
            requires
                pow10(decimals as nat) <= 100_000_000_000,
        ;
    } else {
        crate::pricing::lemma_pow10_increases(12, decimals as nat);
        assert(69_420_000 * pow10(decimals as nat) >= 69_420_000 * 1_000_000_000_000)
            by (nonlinear_arith)
            requires
                pow10(decimals as nat) >= 1_000_000_000_000,
        ;
    }
}

/// A quantity that is issued is the payment scaled by the asset's precision
/// and divided by the price, rounded down, and is not zero.
pub proof fn lemma_tokens_are_priced(amount: u64, decimals: u8, price: u64)
    requires
        tokens_result(amount, decimals, price) is Ok,
    ensures
        price > 0,
        tokens_result(amount, decimals, price)->Ok_0 == tokens_spec(amount, decimals, price),
        tokens_result(amount, decimals, price)->Ok_0 > 0,
{
}

/// One step of the engine changes nothing of the sale record but its two
/// counters; neither counter shrinks, and the quantity issued stays within
/// the supply cap if it was within it.
pub proof fn lemma_step_keeps_cap(ctx: Purchase, event: PurchaseEvent, canonical: Option<Seq<u8>>)
    ensures
        ({
            let next = ctx.step_spec(event, canonical).0;
            &&& next.presale.same_terms_as(&ctx.presale)
            &&& next.presale.total_raised >= ctx.presale.total_raised
            &&& next.presale.total_sold >= ctx.presale.total_sold
            &&& ctx.presale.within_cap() ==> next.presale.within_cap()
        }),
{
}

/// Only the step that books a purchase changes the sale record, and it adds
/// the payment and the quantity of the purchase to the counters.
pub proof fn lemma_only_booking_changes_record(
    ctx: Purchase,
    event: PurchaseEvent,
    canonical: Option<Seq<u8>>,
)
    ensures
        ({
            let (next, action) = ctx.step_spec(event, canonical);
            match action {
                PurchaseAction::Emit { record } => {
                    &&& ctx.stage is Locking
                    &&& next.stage is Settled
                    &&& next.presale.total_raised == ctx.presale.total_raised + record.lamports
                    &&& next.presale.total_sold == ctx.presale.total_sold + record.tokens
                },
                _ => next.presale == ctx.presale,
            }
        }),
{
}

/// Every event that fits the stage moves the purchase forward, so that a
/// purchase ends after five steps at most; an event that does not fit
/// changes nothing.
pub proof fn lemma_step_advances(ctx: Purchase, event: PurchaseEvent, canonical: Option<Seq<u8>>)
    ensures
        ({
            let (next, action) = ctx.step_spec(event, canonical);
            if action is Nothing {
                next == ctx
            } else {
                &&& next.stage.rank() > ctx.stage.rank()
                &&& action.is_last() <==> next.stage.rank() == 5
            }
        }),
{
}

/// Over any sequence of steps, by any purchases, on a sale that is within
/// its cap: the supply cap never changes, the quantity issued never shrinks
/// from one step to the next, and it never exceeds the cap.
pub proof fn lemma_purchases_keep_cap(
    sale: Presale,
    steps: Seq<(Purchase, PurchaseEvent, Option<Seq<u8>>)>,
)
    requires
        sale.within_cap(),
    ensures
        record_after(sale, steps).same_terms_as(&sale),
        record_after(sale, steps).within_cap(),
        record_after(sale, steps).total_sold >= sale.total_sold,
        record_after(sale, steps).total_raised >= sale.total_raised,
        forall|i: int|
            0 <= i < steps.len() ==> (#[trigger] record_after(sale, steps.take(i))).total_sold
                <= record_after(sale, steps.take(i + 1)).total_sold <= sale.supply_cap,
    decreases steps.len(),
{
    if steps.len() > 0 {
        let (ctx, event, canonical) = steps.last();
        let earlier = steps.drop_last();
        lemma_purchases_keep_cap(sale, earlier);
        let before = record_after(sale, earlier);
        lemma_step_keeps_cap(Purchase { presale: before, ..ctx }, event, canonical);
        assert forall|i: int| 0 <= i < steps.len() implies (#[trigger] record_after(
            sale,
            steps.take(i),
        )).total_sold <= record_after(sale, steps.take(i + 1)).total_sold
            <= sale.supply_cap by {
            if i < steps.len() - 1 {
                assert(steps.take(i) =~= earlier.take(i));
                assert(steps.take(i + 1) =~= earlier.take(i + 1));
            } else {
                assert(steps.take(i) =~= earlier);
                assert(steps.take(i + 1) =~= steps);
            }
        }
    }
}

/// A run of the engine, step by step, is the run written out.
pub proof fn lemma_run_written_out(ctx: Purchase, amount: u64, canonical: Option<Seq<u8>>)
    requires
        ctx.stage is Idle,
    ensures
        ctx.run_spec(amount, canonical) == ctx.written_out_spec(amount, canonical),
{
    reveal_with_fuel(Purchase::resume_spec, 5);
    let (paying, first) = ctx.step_spec(
        PurchaseEvent::Requested { amount_lamports: amount },
        canonical,
    );
    let (end, asked) = ctx.run_spec(amount, canonical);
    let written = ctx.written_out_spec(amount, canonical);
    if ctx.presale.payment_refusal(amount) is None {
        let (paid, second) = paying.step_spec(PurchaseEvent::Completed, canonical);
        assert(paying.terms_spec(amount, canonical) == ctx.terms_spec(amount, canonical));
        if ctx.terms_spec(amount, canonical) is Ok {
            let (issuing, third) = if ctx.buyer_ata.data_is_empty {
                paid.step_spec(PurchaseEvent::Completed, canonical)
            } else {
                (paid, second)
            };
            let (locking, fourth) = issuing.step_spec(PurchaseEvent::Completed, canonical);
            let (last, fifth) = locking.step_spec(PurchaseEvent::Completed, canonical);
            assert(end == last);
            if ctx.buyer_ata.data_is_empty {
                assert(asked =~= seq![first, second, third, fourth, fifth]);
            } else {
                assert(asked =~= seq![first, second, fourth, fifth]);
            }
            assert(asked =~= written.1);
        } else {
            assert(asked =~= seq![first, second]);
        }
    } else {
        assert(asked =~= seq![first]);
    }
}

/// A run comes to exactly what the checks say.
///
/// Where every check passes, the engine asks in this order for the transfer
/// of the payment, the creation of the holding account if and only if it is
/// absent, the issuance, the freeze of the holding account, and the
/// publication of the record; the payment and the quantity are added to the
/// counters and nothing else changes in the record; the quantity is the
/// payment scaled by the precision and divided by the price, rounded down,
/// and is not zero.
///
/// Where a check fails, the run ends with the rejection for the first check
/// that fails, and the record is as it was.
pub proof fn lemma_run_outcome(ctx: Purchase, amount: u64, canonical: Option<Seq<u8>>)
    requires
        ctx.stage is Idle,
    ensures
        ({
            let (end, asked) = ctx.run_spec(amount, canonical);
            match ctx.outcome_spec(amount, canonical) {
                Ok(record) => {
                    &&& end.stage is Settled
                    &&& Ok::<Presale, PresaleError>(end.presale) == ctx.presale.settled_spec(
                        amount,
                        record.tokens,
                    )
                    &&& end.presale.total_raised == ctx.presale.total_raised + amount
                    &&& end.presale.total_sold == ctx.presale.total_sold + record.tokens
                    &&& record.tokens == tokens_spec(
                        amount,
                        ctx.mint.decimals,
                        ctx.presale.price_lamports_per_token,
                    )
                    &&& record.tokens > 0
                    &&& asked.last() == PurchaseAction::Emit { record }
                },
                Err(error) => {
                    &&& end.stage is Rejected
                    &&& end.presale == ctx.presale
                    &&& asked.last() == PurchaseAction::Reject { error }
                },
            }
        }),
{
    lemma_run_written_out(ctx, amount, canonical);
    if ctx.outcome_spec(amount, canonical) is Ok {
        lemma_tokens_are_priced(amount, ctx.mint.decimals, ctx.presale.price_lamports_per_token);
    }
}

/// A payment within the bounds of a sale that is not paused, and not a
/// multiple of the price, is refused with `NotMultiple` before anything is
/// asked of the host, and the sale record stays as it was.
pub proof fn lemma_not_multiple_is_refused(ctx: Purchase, amount: u64, canonical: Option<Seq<u8>>)
    requires
        ctx.stage is Idle,
        !ctx.presale.paused,
        ctx.presale.min_total <= amount <= ctx.presale.max_total,
        ctx.presale.price_lamports_per_token > 0,
        amount as int % ctx.presale.price_lamports_per_token as int != 0,
    ensures
        ctx.run_spec(amount, canonical).1 == seq![
            PurchaseAction::Reject { error: PresaleError::NotMultiple },
        ],
        ctx.run_spec(amount, canonical).0.presale == ctx.presale,
{
    lemma_run_written_out(ctx, amount, canonical);
}

/// A payment that passes the payment checks and buys more than the supply
/// cap leaves is refused with `ExceedsSupplyCap` once the payment has
/// arrived: nothing is issued, and the sale record stays as it was.
pub proof fn lemma_over_cap_is_refused(ctx: Purchase, amount: u64, canonical: Option<Seq<u8>>)
    requires
        ctx.stage is Idle,
        ctx.presale.within_cap(),
        ctx.presale.payment_refusal(amount) is None,
        tokens_result(amount, ctx.mint.decimals, ctx.presale.price_lamports_per_token) is Ok,
        ctx.presale.total_sold + tokens_spec(
            amount,
            ctx.mint.decimals,
            ctx.presale.price_lamports_per_token,
        ) > ctx.presale.supply_cap,
    ensures
        ctx.run_spec(amount, canonical).1 == seq![
            PurchaseAction::Transfer { from: ctx.buyer, to: ctx.vault, lamports: amount },
            PurchaseAction::Reject { error: PresaleError::ExceedsSupplyCap },
        ],
        ctx.run_spec(amount, canonical).0.presale == ctx.presale,
{
    lemma_run_written_out(ctx, amount, canonical);
}

/// Issuance cannot be redirected. A payment that passes the payment checks,
/// the quantity and the cap, but comes with an asset that is not the asset
/// of the sale, or with a holding account that is not the one derived for
/// the buyer and the asset of the sale, is refused with `Unauthorized` once
/// the payment has arrived: no account is created, nothing is issued or
/// frozen, no record is published, and the sale record stays as it was.
pub proof fn lemma_foreign_holding_is_refused(
    ctx: Purchase,
    amount: u64,
    canonical: Option<Seq<u8>>,
)
    requires
        ctx.stage is Idle,
        ctx.presale.payment_refusal(amount) is None,
        ctx.presale.quote_spec(amount, ctx.mint.decimals) is Ok,
        ctx.mint.key@ != ctx.presale.mint@ || canonical != Some(ctx.buyer_ata.key@),
    ensures
        ctx.run_spec(amount, canonical).1 == seq![
            PurchaseAction::Transfer { from: ctx.buyer, to: ctx.vault, lamports: amount },
            PurchaseAction::Reject { error: PresaleError::Unauthorized },
        ],
        ctx.run_spec(amount, canonical).0 == ctx.at_stage(PurchaseStage::Rejected),
{
    lemma_run_written_out(ctx, amount, canonical);
}

/// Whatever a run issues, it issues the asset of the sale into the holding
/// account derived for the buyer and that asset.
pub proof fn lemma_issuance_is_canonical(ctx: Purchase, amount: u64, canonical: Option<Seq<u8>>)
    requires
        ctx.stage is Idle,
    ensures
        forall|i: int|
            #![trigger ctx.run_spec(amount, canonical).1[i]]
            0 <= i < ctx.run_spec(amount, canonical).1.len() ==> match ctx.run_spec(
                amount,
                canonical,
            ).1[i] {
                PurchaseAction::MintTo { mint, to, .. } => mint@ == ctx.presale.mint@ && Some(to@)
                    == canonical,
                PurchaseAction::FreezeAccount { account, mint, .. } => mint@ == ctx.presale.mint@
                    && Some(account@) == canonical,
                PurchaseAction::CreateHolding { holding, mint, owner, .. } => mint@
                    == ctx.presale.mint@ && Some(holding@) == canonical && owner == ctx.buyer,
                _ => true,
            },
{
    lemma_run_written_out(ctx, amount, canonical);
}

/// The creation of the holding account is asked for in a run if and only if
/// the run reaches the issuance and the account is absent; it is then asked
/// for once, directly before the issuance. Every issuance is directly
/// followed by the freeze of the account.
pub proof fn lemma_holding_is_created_when_absent(
    ctx: Purchase,
    amount: u64,
    canonical: Option<Seq<u8>>,
)
    requires
        ctx.stage is Idle,
    ensures
        ({
            let asked = ctx.run_spec(amount, canonical).1;
            let reached = ctx.presale.payment_refusal(amount) is None && ctx.terms_spec(
                amount,
                canonical,
            ) is Ok;
            &&& (exists|i: int| 0 <= i < asked.len() && asked[i] is CreateHolding) <==> reached
                && ctx.buyer_ata.data_is_empty
            &&& forall|i: int|
                0 <= i < asked.len() && #[trigger] asked[i] is CreateHolding ==> i == 1 && asked[2]
                    is MintTo
            &&& (exists|i: int| 0 <= i < asked.len() && asked[i] is MintTo) <==> reached
            &&& forall|i: int|
                0 <= i < asked.len() && #[trigger] asked[i] is MintTo ==> i + 1 < asked.len()
                    && asked[i + 1] == ctx.freeze_spec()
        }),
{
    lemma_run_written_out(ctx, amount, canonical);
    let asked = ctx.run_spec(amount, canonical).1;
    if ctx.presale.payment_refusal(amount) is None && ctx.terms_spec(amount, canonical) is Ok {
        if ctx.buyer_ata.data_is_empty {
            assert(asked[1] is CreateHolding);
            assert(asked[2] is MintTo);
        } else {
            assert(asked[1] is MintTo);
        }
    }
}

} // verus!
