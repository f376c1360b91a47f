//! The audit trail: one event for every operation that changed something.

use vstd::prelude::*;
use crate::keys::Pubkey;
use crate::ledger::LedgerAction;

verus! {

/// A market was created.
#[derive(Clone, Copy, Debug, PartialEq, Eq)]
pub struct MarketInitialized {
    pub market: Pubkey,
    pub authority: Pubkey,
    pub governance_authority: Pubkey,
    pub quote_mint: Pubkey,
    pub receipt_mint: Pubkey,
    pub fee_bps: u16,
}

/// A market stopped accepting new deals.
#[derive(Clone, Copy, Debug, PartialEq, Eq)]
pub struct MarketPaused {
    pub market: Pubkey,
}

/// A market accepts new deals again.
#[derive(Clone, Copy, Debug, PartialEq, Eq)]
pub struct MarketUnpaused {
    pub market: Pubkey,
}

/// A price and a volatility were posted.
#[derive(Clone, Copy, Debug, PartialEq, Eq)]
pub struct PricePosted {
    pub market: Pubkey,
    pub price: u64,
    pub exponent: i32,
    pub settle_ts: i64,
    pub vol_bps: u16,
}

/// A collateral asset was listed.
#[derive(Clone, Copy, Debug, PartialEq, Eq)]
pub struct CollateralAdded {
    pub market: Pubkey,
    pub collateral_mint: Pubkey,
}

/// A collateral asset was delisted.
#[derive(Clone, Copy, Debug, PartialEq, Eq)]
pub struct CollateralRemoved {
    pub market: Pubkey,
    pub collateral_mint: Pubkey,
}

/// A warehouse was certified for a market.
#[derive(Clone, Copy, Debug, PartialEq, Eq)]
pub struct WarehouseInitialized {
    pub market: Pubkey,
    pub warehouse: Pubkey,
    pub warehouse_authority: Pubkey,
    pub receipt_mint: Pubkey,
}

/// A warehouse issued receipts.
#[derive(Clone, Copy, Debug, PartialEq, Eq)]
pub struct ReceiptMinted {
    pub warehouse: Pubkey,
    pub to: Pubkey,
    pub amount: u64,
}

/// An owner redeemed receipts.
#[derive(Clone, Copy, Debug, PartialEq, Eq)]
pub struct ReceiptBurned {
    pub owner: Pubkey,
    pub amount: u64,
}

/// A deal was opened and funded.
#[derive(Clone, Copy, Debug, PartialEq, Eq)]
pub struct DealOpened {
    pub market: Pubkey,
    pub deal: Pubkey,
    pub deal_id: u64,
    pub long: Pubkey,
    pub short: Pubkey,
    pub quote_mint: Pubkey,
    pub receipt_mint: Pubkey,
    pub strike_price: u64,
    pub qty_receipt_amount: u64,
    pub settle_ts: i64,
    pub kind: u8,
    pub fee_bps: u16,
}

/// A deal was frozen.
#[derive(Clone, Copy, Debug, PartialEq, Eq)]
pub struct DealFrozen {
    pub deal: Pubkey,
}

/// A deal was thawed.
#[derive(Clone, Copy, Debug, PartialEq, Eq)]
pub struct DealUnfrozen {
    pub deal: Pubkey,
}

/// A party added margin to its side of a deal.
#[derive(Clone, Copy, Debug, PartialEq, Eq)]
pub struct MarginDeposited {
    pub deal: Pubkey,
    pub side: u8,
    pub amount: u64,
}

/// A deal was settled in cash.
#[derive(Clone, Copy, Debug, PartialEq, Eq)]
pub struct CashSettled {
    pub deal: Pubkey,
    pub final_price: u64,
    pub pnl_long: i128,
}

/// A deal was settled by delivery.
#[derive(Clone, Copy, Debug, PartialEq, Eq)]
pub struct PhysicalSettled {
    pub deal: Pubkey,
    pub qty_receipt_amount: u64,
    pub pay_amount: u64,
}

/// Part of a deal was delivered.
#[derive(Clone, Copy, Debug, PartialEq, Eq)]
pub struct PartialPhysicalSettled {
    pub deal: Pubkey,
    pub amount_receipt: u64,
    pub pay_amount: u64,
    pub fully_settled: bool,
}

/// A cross-margin account was created.
#[derive(Clone, Copy, Debug, PartialEq, Eq)]
pub struct CrossMarginCreated {
    pub market: Pubkey,
    pub owner: Pubkey,
    pub quote_mint: Pubkey,
    pub vault: Pubkey,
}

/// An owner paid into a cross-margin pool.
#[derive(Clone, Copy, Debug, PartialEq, Eq)]
pub struct CrossMarginDeposited {
    pub market: Pubkey,
    pub owner: Pubkey,
    pub amount: u64,
}

/// An owner drew from a cross-margin pool.
#[derive(Clone, Copy, Debug, PartialEq, Eq)]
pub struct CrossMarginWithdrawn {
    pub market: Pubkey,
    pub owner: Pubkey,
    pub amount: u64,
}

/// Pooled collateral was moved into a deal.
#[derive(Clone, Copy, Debug, PartialEq, Eq)]
pub struct CrossMarginToDeal {
    pub deal: Pubkey,
    pub side: u8,
    pub amount: u64,
}

/// Deal margin was moved back into a pool.
#[derive(Clone, Copy, Debug, PartialEq, Eq)]
pub struct DealToCrossMargin {
    pub deal: Pubkey,
    pub side: u8,
    pub amount: u64,
}

/// A market's strategy operator was named.
#[derive(Clone, Copy, Debug, PartialEq, Eq)]
pub struct YieldOperatorSet {
    pub market: Pubkey,
    pub operator: Pubkey,
}

/// Idle deal margin was parked in the strategy vault.
#[derive(Clone, Copy, Debug, PartialEq, Eq)]
pub struct YieldParked {
    pub deal: Pubkey,
    pub side: u8,
    pub amount: u64,
}

/// Parked margin was returned to a deal.
#[derive(Clone, Copy, Debug, PartialEq, Eq)]
pub struct YieldUnparked {
    pub deal: Pubkey,
    pub side: u8,
    pub amount: u64,
}

/// Any one of the engine's events.
#[derive(Clone, Copy, Debug, PartialEq, Eq)]
pub enum Event {
    MarketInitialized(MarketInitialized),
    MarketPaused(MarketPaused),
    MarketUnpaused(MarketUnpaused),
    PricePosted(PricePosted),
    CollateralAdded(CollateralAdded),
    CollateralRemoved(CollateralRemoved),
    WarehouseInitialized(WarehouseInitialized),
    ReceiptMinted(ReceiptMinted),
    ReceiptBurned(ReceiptBurned),
    DealOpened(DealOpened),
    DealFrozen(DealFrozen),
    DealUnfrozen(DealUnfrozen),
    MarginDeposited(MarginDeposited),
    CashSettled(CashSettled),
    PhysicalSettled(PhysicalSettled),
    PartialPhysicalSettled(PartialPhysicalSettled),
    CrossMarginCreated(CrossMarginCreated),
    CrossMarginDeposited(CrossMarginDeposited),
    CrossMarginWithdrawn(CrossMarginWithdrawn),
    CrossMarginToDeal(CrossMarginToDeal),
    DealToCrossMargin(DealToCrossMargin),
    YieldOperatorSet(YieldOperatorSet),
    YieldParked(YieldParked),
    YieldUnparked(YieldUnparked),
}

/// What a successful operation asks of the outside world: the ledger
/// movements to make, in order, and the event to publish.
#[derive(Debug, PartialEq, Eq)]
pub struct Effects {
    pub actions: Vec<LedgerAction>,
    pub event: Option<Event>,
}

/// The mathematical content of an `Effects` value.
pub struct EffectsView {
    pub actions: Seq<LedgerAction>,
    pub event: Option<Event>,
}

impl View for Effects {
    type V = EffectsView;

    open spec fn view(&self) -> EffectsView {
        EffectsView { actions: self.actions@, event: self.event }
    }
}

impl Effects {
    /// An event and no ledger movement.
    pub fn event_only(event: Event) -> (effects: Effects)
        ensures
            effects@ == (EffectsView { actions: Seq::empty(), event: Some(event) }),
    {
        Effects { actions: Vec::new(), event: Some(event) }
    }

    /// Neither a movement nor an event: the operation found nothing to do.
    pub fn nothing() -> (effects: Effects)
        ensures
            effects@ == (EffectsView { actions: Seq::empty(), event: None }),
    {
        Effects { actions: Vec::new(), event: None }
    }

    /// One ledger movement and an event.
    pub fn one_action(action: LedgerAction, event: Event) -> (effects: Effects)
        ensures
            effects@ == (EffectsView { actions: seq![action], event: Some(event) }),
    {
        let mut actions: Vec<LedgerAction> = Vec::new();
        actions.push(action);
        assert(actions@ =~= seq![action]);
        Effects { actions, event: Some(event) }
    }
}

} // verus!
