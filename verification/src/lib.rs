//! A clearing and margin-accounting engine for bilateral forward contracts on
//! tokenized warehouse receipts.
//!
//! Two parties, long and short, agree on a price for a quantity of a receipt
//! asset, post collateral, and settle when the time has come: in cash, by
//! paying the difference between the posted price and the strike, or
//! physically, by delivering the receipts against payment of the strike.
//!
//! The engine decides; it holds no funds and keeps no clock. Every operation
//! takes the records it works on, the parties that signed, and where it needs
//! them the time and the balances of the vaults, all as plain values. It
//! either refuses with an [`ErrorCode`] and leaves the records as they were,
//! or changes the records and returns its [`Effects`]: the movements that the
//! asset ledger has to make, in order and all or none, and the event to
//! publish.
//!
//! Each operation comes with a model: a `rejection` that names the first
//! precondition that fails, if any does, and the records and effects of
//! success. The contract of the operation ties its result to that model for
//! every input, and the laws in [`laws`] are proved from the models.
//!
//! - [`math`]: notional, profit and required margin in fixed point.
//! - [`market`]: creation, collateral list, pause, price posts.
//! - [`warehouse`]: certified issuers of the receipt asset.
//! - [`deal`]: opening, freezing, margin deposits.
//! - [`settlement`]: cash, physical and partial physical settlement.
//! - [`cross_margin`]: pooled collateral and its moves into and out of deals.
//! - [`parking`]: moves between a deal's vaults and its strategy vault.
//! - [`ledger`]: the balances, the movements, and what they do to balances.

pub mod cross_margin;
pub mod deal;
pub mod events;
pub mod keys;
pub mod laws;
pub mod ledger;
pub mod market;
pub mod math;
pub mod parking;
pub mod settlement;
pub mod state;
pub mod types;
pub mod warehouse;

pub use cross_margin::{
    cm_create, cm_deposit, cm_move_from_deal, cm_move_to_deal, cm_withdraw, CmCreate, CmDeposit,
    CmMoveFromDeal, CmMoveToDeal, CmWithdraw,
};
pub use deal::{
    deposit_margin, freeze_deal, open_deal, unfreeze_deal, AdminDealWrite, DepositMargin, OpenDeal,
};
pub use events::{
    CashSettled, CollateralAdded, CollateralRemoved, CrossMarginCreated, CrossMarginDeposited,
    CrossMarginToDeal, CrossMarginWithdrawn, DealFrozen, DealOpened, DealToCrossMargin,
    DealUnfrozen, Effects, EffectsView, Event, MarginDeposited, MarketInitialized, MarketPaused,
    MarketUnpaused, PartialPhysicalSettled, PhysicalSettled, PricePosted, ReceiptBurned,
    ReceiptMinted, WarehouseInitialized, YieldOperatorSet, YieldParked, YieldUnparked,
};
pub use keys::Pubkey;
pub use ledger::{transfer_signed, Authority, LedgerAccount, LedgerAction};
pub use market::{
    add_allowed_collateral, find_collateral, init_market, is_allowed_collateral, only_admin,
    only_strategy_operator, pause_market, post_price, remove_allowed_collateral, unpause_market,
    yield_set_operator, AdminMarketWrite, InitMarket, PostPrice,
};
pub use math::{
    calc_pnl_long, exponent_digits, notional_at_strike, pow10_u128, required_initial_margin,
    scale_down, wide_mul,
};
pub use parking::{yield_park_from_deal, yield_unpark_to_deal, YieldPark};
pub use settlement::{
    payout_leftovers_after_settlement, settle_cash, settle_cash_inner, settle_partial_physical,
    settle_physical, SettleCash, SettlePhysical,
};
pub use state::{Account, CrossMargin, Deal, DealSnapshot, Market, MarketSnapshot, Warehouse};
pub use types::{
    ErrorCode, SettlementKind, Side, BPS_DENOMINATOR, DEAL_VERSION, DEFAULT_PRICE_EXPONENT,
    MAX_COLLATERALS, MAX_FEE_BPS, VERSION,
};
pub use warehouse::{
    burn_receipt, init_warehouse, mint_receipt, BurnReceipt, InitWarehouse, MintReceipt,
};
