//! Opening a deal, freezing and thawing it, and adding margin to it.

use vstd::prelude::*;
use crate::events::{
    DealFrozen, DealOpened, DealUnfrozen, Effects, EffectsView, Event, MarginDeposited,
};
use crate::keys::Pubkey;
use crate::ledger::{
    lemma_net_flow_one, lemma_net_flow_push, net_flow, transfer_by_signer, Authority,
    LedgerAccount, LedgerAction,
};
use crate::market::{is_allowed_collateral, only_admin};
use crate::math::{required_initial_margin, spec_notional, spec_required_initial_margin};
use crate::state::{Account, Deal, Market, MarketSnapshot};
use crate::types::{ErrorCode, SettlementKind, Side, DEAL_VERSION, VERSION};

verus! {

/// The movement by which `payer` funds the margin vault of `side`.
pub open spec fn funding_action(
    deal: Pubkey,
    side: Side,
    payer: Pubkey,
    mint: Pubkey,
    amount: u64,
) -> LedgerAction {
    LedgerAction::Transfer {
        from: LedgerAccount::Wallet { owner: payer, mint },
        to: LedgerAccount::MarginVault { deal, side },
        authority: Authority::Signer { key: payer },
        amount,
    }
}

/// The accounting identity of one operation on the deal stored under `deal`:
/// the recorded margin of either side moved by exactly what `actions` put
/// into that side's vault less what they took out of it.
pub open spec fn margins_mirror_ledger(
    deal: Pubkey,
    before: Deal,
    after: Deal,
    actions: Seq<LedgerAction>,
) -> bool {
    &&& after.long_margin - before.long_margin == net_flow(
        actions,
        LedgerAccount::MarginVault { deal, side: Side::Long },
    )
    &&& after.short_margin - before.short_margin == net_flow(
        actions,
        LedgerAccount::MarginVault { deal, side: Side::Short },
    )
}

/// What `open_deal` works on: the market, the two parties that signed, the
/// collateral asset they chose, and the record that will hold the deal.
#[derive(Clone, Copy, Debug, PartialEq, Eq)]
pub struct OpenDeal {
    pub market: Account<Market>,
    pub long: Pubkey,
    pub short: Pubkey,
    pub quote_mint: Pubkey,
    pub deal: Account<Deal>,
    pub deal_bump: u8,
    pub vault_bump: u8,
}

impl OpenDeal {
    /// The initial margin that each side owes for `qty` units at
    /// `strike_price` under the market's current parameters.
    pub open spec fn required_margin(self, strike_price: u64, qty: u64) -> nat {
        spec_required_initial_margin(
            spec_notional(strike_price as nat, qty as nat, self.market.data.price_exponent as int),
            self.market.data.base_initial_margin_bps as nat,
            self.market.data.vol_multiplier_bps as nat,
            self.market.data.last_vol_bps as nat,
        )
    }

    /// Why `open_deal` refuses, if it does: the first of its preconditions
    /// that fails.
    pub open spec fn rejection(
        self,
        now: i64,
        deal_version: u8,
        strike_price: u64,
        qty_receipt_amount: u64,
        settle_ts: i64,
        initial_margin_long: u64,
        initial_margin_short: u64,
    ) -> Option<ErrorCode> {
        let required = self.required_margin(strike_price, qty_receipt_amount);
        if self.market.data.is_paused {
            Some(ErrorCode::MarketPaused)
        } else if deal_version != DEAL_VERSION {
            Some(ErrorCode::DealVersionMismatch)
        } else if settle_ts <= now {
            Some(ErrorCode::InvalidSettlementTime)
        } else if !self.market.data.allows(self.quote_mint) {
            Some(ErrorCode::CollateralNotAllowed)
        } else if qty_receipt_amount == 0 {
            Some(ErrorCode::ZeroAmount)
        } else if required > u64::MAX {
            Some(ErrorCode::MathOverflow)
        } else if initial_margin_long < required || initial_margin_short < required {
            Some(ErrorCode::InsufficientInitialMargin)
        } else {
            None
        }
    }

    /// The deal that `open_deal` records.
    pub open spec fn opened(
        self,
        deal_id: u64,
        deal_version: u8,
        strike_price: u64,
        qty_receipt_amount: u64,
        settle_ts: i64,
        settlement_kind: SettlementKind,
        initial_margin_long: u64,
        initial_margin_short: u64,
    ) -> Deal {
        Deal {
            version: VERSION,
            deal_version,
            market: self.market.key,
            deal_id,
            long: self.long,
            short: self.short,
            quote_mint: self.quote_mint,
            receipt_mint: self.market.data.receipt_mint,
            strike_price,
            price_exponent: self.market.data.price_exponent,
            qty_receipt_amount,
            settle_ts,
            settlement_kind,
            long_margin: initial_margin_long,
            short_margin: initial_margin_short,
            fee_bps: self.market.data.fee_bps,
            is_settled: false,
            is_frozen: false,
            bump: self.deal_bump,
            vault_bump: self.vault_bump,
        }
    }

    /// The movements that fund the two margin vaults: long first, and none
    /// for a side that posts nothing.
    pub open spec fn funding(self, initial_margin_long: u64, initial_margin_short: u64) -> Seq<
        LedgerAction,
    > {
        let long = if initial_margin_long > 0 {
            seq![
                funding_action(
                    self.deal.key,
                    Side::Long,
                    self.long,
                    self.quote_mint,
                    initial_margin_long,
                ),
            ]
        } else {
            Seq::empty()
        };
        let short = if initial_margin_short > 0 {
            seq![
                funding_action(
                    self.deal.key,
                    Side::Short,
                    self.short,
                    self.quote_mint,
                    initial_margin_short,
                ),
            ]
        } else {
            Seq::empty()
        };
        long + short
    }

    /// The event that reports the new deal.
    pub open spec fn opened_event(
        self,
        deal_id: u64,
        strike_price: u64,
        qty_receipt_amount: u64,
        settle_ts: i64,
        settlement_kind: SettlementKind,
    ) -> Event {
        Event::DealOpened(
            DealOpened {
                market: self.market.key,
                deal: self.deal.key,
                deal_id,
                long: self.long,
                short: self.short,
                quote_mint: self.quote_mint,
                receipt_mint: self.market.data.receipt_mint,
                strike_price,
                qty_receipt_amount,
                settle_ts,
                kind: settlement_kind.spec_code(),
                fee_bps: self.market.data.fee_bps,
            },
        )
    }
}

/// The net flow of the funding movements into each margin vault is what the
/// side posted.
pub proof fn lemma_funding_flows(ctx: OpenDeal, initial_margin_long: u64, initial_margin_short: u64)
    ensures
        net_flow(
            ctx.funding(initial_margin_long, initial_margin_short),
            LedgerAccount::MarginVault { deal: ctx.deal.key, side: Side::Long },
        ) == initial_margin_long,
        net_flow(
            ctx.funding(initial_margin_long, initial_margin_short),
            LedgerAccount::MarginVault { deal: ctx.deal.key, side: Side::Short },
        ) == initial_margin_short,
{
    let long_vault = LedgerAccount::MarginVault { deal: ctx.deal.key, side: Side::Long };
    let short_vault = LedgerAccount::MarginVault { deal: ctx.deal.key, side: Side::Short };
    let fund_long = funding_action(
        ctx.deal.key,
        Side::Long,
        ctx.long,
        ctx.quote_mint,
        initial_margin_long,
    );
    let fund_short = funding_action(
        ctx.deal.key,
        Side::Short,
        ctx.short,
        ctx.quote_mint,
        initial_margin_short,
    );
    let first: Seq<LedgerAction> = if initial_margin_long > 0 {
        seq![fund_long]
    } else {
        Seq::empty()
    };
    let all = ctx.funding(initial_margin_long, initial_margin_short);
    if initial_margin_long > 0 {
        lemma_net_flow_one(fund_long, long_vault);
        lemma_net_flow_one(fund_long, short_vault);
    }
    if initial_margin_short > 0 {
        assert(all =~= first.push(fund_short));
        lemma_net_flow_push(first, fund_short, long_vault);
        lemma_net_flow_push(first, fund_short, short_vault);
    } else {
        assert(all =~= first);
    }
}

/// Opens a deal between `ctx.long` and `ctx.short` and funds both margin
/// vaults.
///
/// The deal is refused while the market is paused, for an unknown schema
/// version, for a settlement time that is not in the future, for a
/// collateral asset that the market does not accept, for a quantity of
/// zero, and where either side posts less than the required initial margin. Otherwise the deal is
/// recorded, open and not frozen, with the market's exponent and fee copied
/// into it, and each side's posting is drawn from its own balance into its
/// margin vault.
pub fn open_deal(
    ctx: &mut OpenDeal,
    now: i64,
    deal_id: u64,
    deal_version: u8,
    strike_price: u64,
    qty_receipt_amount: u64,
    settle_ts: i64,
    settlement_kind: SettlementKind,
    initial_margin_long: u64,
    initial_margin_short: u64,
) -> (r: Result<Effects, ErrorCode>)
    requires
        old(ctx).market.data.wf(),
    ensures
        match r {
            Ok(effects) => {
                &&& old(ctx).rejection(
                    now,
                    deal_version,
                    strike_price,
                    qty_receipt_amount,
                    settle_ts,
                    initial_margin_long,
                    initial_margin_short,
                ) is None
                &&& *final(ctx) == (OpenDeal {
                    deal: Account {
                        key: old(ctx).deal.key,
                        data: old(ctx).opened(
                            deal_id,
                            deal_version,
                            strike_price,
                            qty_receipt_amount,
                            settle_ts,
                            settlement_kind,
                            initial_margin_long,
                            initial_margin_short,
                        ),
                    },
                    ..*old(ctx)
                })
                &&& effects@ == (EffectsView {
                    actions: old(ctx).funding(initial_margin_long, initial_margin_short),
                    event: Some(
                        old(ctx).opened_event(
                            deal_id,
                            strike_price,
                            qty_receipt_amount,
                            settle_ts,
                            settlement_kind,
                        ),
                    ),
                })
                &&& final(ctx).deal.data.wf()
                &&& final(ctx).deal.data.settle_ts > now
                &&& final(ctx).deal.data.qty_receipt_amount > 0
                &&& final(ctx).deal.data.long_margin == net_flow(
                    effects@.actions,
                    LedgerAccount::MarginVault { deal: final(ctx).deal.key, side: Side::Long },
                )
                &&& final(ctx).deal.data.short_margin == net_flow(
                    effects@.actions,
                    LedgerAccount::MarginVault { deal: final(ctx).deal.key, side: Side::Short },
                )
            },
            Err(e) => {
                &&& old(ctx).rejection(
                    now,
                    deal_version,
                    strike_price,
                    qty_receipt_amount,
                    settle_ts,
                    initial_margin_long,
                    initial_margin_short,
                ) == Some(e)
                &&& *final(ctx) == *old(ctx)
            },
        },
{
    if ctx.market.data.is_paused {
        return Err(ErrorCode::MarketPaused);
    }
    if deal_version != DEAL_VERSION {
        return Err(ErrorCode::DealVersionMismatch);
    }
    if settle_ts <= now {
        return Err(ErrorCode::InvalidSettlementTime);
    }
    if !is_allowed_collateral(&ctx.market.data, &ctx.quote_mint) {
        return Err(ErrorCode::CollateralNotAllowed);
    }
    if qty_receipt_amount == 0 {
        return Err(ErrorCode::ZeroAmount);
    }
    let snap = MarketSnapshot::from(&ctx.market);
    let required = match required_initial_margin(&snap, strike_price, qty_receipt_amount) {
        Ok(required) => required,
        Err(e) => {
            return Err(e);
        },
    };
    if !(initial_margin_long >= required && initial_margin_short >= required) {
        return Err(ErrorCode::InsufficientInitialMargin);
    }
    let mut actions: Vec<LedgerAction> = Vec::new();
    if initial_margin_long > 0 {
        actions.push(
            transfer_by_signer(
                LedgerAccount::Wallet { owner: ctx.long, mint: ctx.quote_mint },
                LedgerAccount::MarginVault { deal: ctx.deal.key, side: Side::Long },
                &ctx.long,
                initial_margin_long,
            ),
        );
    }
    if initial_margin_short > 0 {
        actions.push(
            transfer_by_signer(
                LedgerAccount::Wallet { owner: ctx.short, mint: ctx.quote_mint },
                LedgerAccount::MarginVault { deal: ctx.deal.key, side: Side::Short },
                &ctx.short,
                initial_margin_short,
            ),
        );
    }
    proof {
        assert(actions@ =~= ctx.funding(initial_margin_long, initial_margin_short));
        lemma_funding_flows(*ctx, initial_margin_long, initial_margin_short);
    }
    let event = Event::DealOpened(
        DealOpened {
            market: ctx.market.key,
            deal: ctx.deal.key,
            deal_id,
            long: ctx.long,
            short: ctx.short,
            quote_mint: ctx.quote_mint,
            receipt_mint: ctx.market.data.receipt_mint,
            strike_price,
            qty_receipt_amount,
            settle_ts,
            kind: settlement_kind.code(),
            fee_bps: ctx.market.data.fee_bps,
        },
    );
    ctx.deal.data = Deal {
        version: VERSION,
        deal_version,
        market: ctx.market.key,
        deal_id,
        long: ctx.long,
        short: ctx.short,
        quote_mint: ctx.quote_mint,
        receipt_mint: ctx.market.data.receipt_mint,
        strike_price,
        price_exponent: ctx.market.data.price_exponent,
        qty_receipt_amount,
        settle_ts,
        settlement_kind,
        long_margin: initial_margin_long,
        short_margin: initial_margin_short,
        fee_bps: ctx.market.data.fee_bps,
        is_settled: false,
        is_frozen: false,
        bump: ctx.deal_bump,
        vault_bump: ctx.vault_bump,
    };
    Ok(Effects { actions, event: Some(event) })
}

/// What `freeze_deal` and `unfreeze_deal` work on: the signer, the market
/// and one of its deals.
#[derive(Clone, Copy, Debug, PartialEq, Eq)]
pub struct AdminDealWrite {
    pub signer: Pubkey,
    pub market: Account<Market>,
    pub deal: Account<Deal>,
}

impl AdminDealWrite {
    /// Why a freeze or a thaw is refused, if it is: the deal is not one of
    /// this market, or the signer does not administer the market.
    pub open spec fn rejection(self) -> Option<ErrorCode> {
        if self.deal.data.market != self.market.key {
            Some(ErrorCode::ConstraintMismatch)
        } else if !self.market.data.is_admin(self.signer) {
            Some(ErrorCode::Unauthorized)
        } else {
            None
        }
    }

    /// The context with the deal's freeze flag set to `frozen` and nothing
    /// else changed.
    pub open spec fn with_frozen(self, frozen: bool) -> AdminDealWrite {
        AdminDealWrite {
            deal: Account { key: self.deal.key, data: Deal { is_frozen: frozen, ..self.deal.data } },
            ..self
        }
    }
}

/// The check that `freeze_deal` and `unfreeze_deal` share.
pub fn check_deal_admin(ctx: &AdminDealWrite) -> (r: Result<(), ErrorCode>)
    ensures
        match r {
            Ok(_) => ctx.rejection() is None,
            Err(e) => ctx.rejection() == Some(e),
        },
{
    if ctx.deal.data.market != ctx.market.key {
        return Err(ErrorCode::ConstraintMismatch);
    }
    only_admin(&ctx.market.data, &ctx.signer)
}

/// Freezes a deal: an administrator of its market blocks margin movements
/// and settlement on it. Freezing a frozen deal leaves it frozen; whether
/// the deal is settled is not touched.
pub fn freeze_deal(ctx: &mut AdminDealWrite) -> (r: Result<Effects, ErrorCode>)
    ensures
        match r {
            Ok(effects) => {
                &&& old(ctx).rejection() is None
                &&& *final(ctx) == old(ctx).with_frozen(true)
                &&& effects@ == (EffectsView {
                    actions: Seq::empty(),
                    event: Some(Event::DealFrozen(DealFrozen { deal: old(ctx).deal.key })),
                })
            },
            Err(e) => old(ctx).rejection() == Some(e) && *final(ctx) == *old(ctx),
        },
        old(ctx).deal.data.wf() ==> final(ctx).deal.data.wf(),
{
    match check_deal_admin(ctx) {
        Ok(_) => {},
        Err(e) => {
            return Err(e);
        },
    }
    ctx.deal.data.is_frozen = true;
    Ok(Effects::event_only(Event::DealFrozen(DealFrozen { deal: ctx.deal.key })))
}

/// Thaws a deal: an administrator of its market lifts the freeze. Thawing a
/// deal that is not frozen changes nothing; whether the deal is settled is
/// not touched.
pub fn unfreeze_deal(ctx: &mut AdminDealWrite) -> (r: Result<Effects, ErrorCode>)
    ensures
        match r {
            Ok(effects) => {
                &&& old(ctx).rejection() is None
                &&& *final(ctx) == old(ctx).with_frozen(false)
                &&& effects@ == (EffectsView {
                    actions: Seq::empty(),
                    event: Some(Event::DealUnfrozen(DealUnfrozen { deal: old(ctx).deal.key })),
                })
            },
            Err(e) => old(ctx).rejection() == Some(e) && *final(ctx) == *old(ctx),
        },
        old(ctx).deal.data.wf() ==> final(ctx).deal.data.wf(),
{
    match check_deal_admin(ctx) {
        Ok(_) => {},
        Err(e) => {
            return Err(e);
        },
    }
    ctx.deal.data.is_frozen = false;
    Ok(Effects::event_only(Event::DealUnfrozen(DealUnfrozen { deal: ctx.deal.key })))
}

/// Why a deal takes no margin movement of `amount` at all, if it takes
/// none: the amount is zero, or the deal is frozen or settled.
pub open spec fn deal_closed_to_margin(deal: Deal, amount: u64) -> Option<ErrorCode> {
    if amount == 0 {
        Some(ErrorCode::ZeroAmount)
    } else if deal.is_frozen {
        Some(ErrorCode::DealFrozen)
    } else if deal.is_settled {
        Some(ErrorCode::AlreadySettled)
    } else {
        None
    }
}

/// The checks that every margin movement makes first, on the amount and on
/// the state of the deal it targets.
pub fn check_open_to_margin(deal: &Deal, amount: u64) -> (r: Result<(), ErrorCode>)
    ensures
        match r {
            Ok(_) => deal_closed_to_margin(*deal, amount) is None,
            Err(e) => deal_closed_to_margin(*deal, amount) == Some(e),
        },
{
    if amount == 0 {
        return Err(ErrorCode::ZeroAmount);
    }
    if deal.is_frozen {
        return Err(ErrorCode::DealFrozen);
    }
    if deal.is_settled {
        return Err(ErrorCode::AlreadySettled);
    }
    Ok(())
}

/// Admits the party on `side` of the deal, nobody else.
pub fn only_party(deal: &Deal, caller: &Pubkey, side: Side) -> (r: Result<(), ErrorCode>)
    ensures
        deal.spec_party(side) == *caller ==> r == Ok::<(), ErrorCode>(()),
        deal.spec_party(side) != *caller ==> r == Err::<(), ErrorCode>(ErrorCode::Unauthorized),
{
    if deal.party(side) != *caller {
        return Err(ErrorCode::Unauthorized);
    }
    Ok(())
}

/// What `deposit_margin` works on: the deal and the party that pays.
#[derive(Clone, Copy, Debug, PartialEq, Eq)]
pub struct DepositMargin {
    pub deal: Account<Deal>,
    pub payer: Pubkey,
}

impl DepositMargin {
    /// Why `deposit_margin` refuses, if it does.
    pub open spec fn rejection(self, side: Side, amount: u64) -> Option<ErrorCode> {
        if deal_closed_to_margin(self.deal.data, amount) is Some {
            deal_closed_to_margin(self.deal.data, amount)
        } else if self.deal.data.spec_party(side) != self.payer {
            Some(ErrorCode::Unauthorized)
        } else if self.deal.data.spec_margin(side) + amount > u64::MAX {
            Some(ErrorCode::MathOverflow)
        } else {
            None
        }
    }

    /// The context after the deposit: the recorded margin of `side` grew by
    /// `amount`, nothing else changed.
    pub open spec fn deposited(self, side: Side, amount: u64) -> DepositMargin {
        DepositMargin {
            deal: Account {
                key: self.deal.key,
                data: self.deal.data.spec_with_margin(
                    side,
                    (self.deal.data.spec_margin(side) + amount) as u64,
                ),
            },
            ..self
        }
    }

    /// What a successful deposit asks for.
    pub open spec fn effects(self, side: Side, amount: u64) -> EffectsView {
        EffectsView {
            actions: seq![
                funding_action(self.deal.key, side, self.payer, self.deal.data.quote_mint, amount),
            ],
            event: Some(
                Event::MarginDeposited(
                    MarginDeposited { deal: self.deal.key, side: side.spec_code(), amount },
                ),
            ),
        }
    }
}

/// Adds `amount` to the margin of `side`.
///
/// Requires an amount above zero, a deal that is neither frozen nor
/// settled, and the party on `side` as payer. The amount is drawn from the
/// payer's own balance into that side's margin vault, and the recorded
/// margin of that side grows by exactly the amount.
pub fn deposit_margin(ctx: &mut DepositMargin, side: Side, amount: u64) -> (r: Result<
    Effects,
    ErrorCode,
>)
    ensures
        match r {
            Ok(effects) => {
                &&& old(ctx).rejection(side, amount) is None
                &&& *final(ctx) == old(ctx).deposited(side, amount)
                &&& effects@ == old(ctx).effects(side, amount)
                &&& margins_mirror_ledger(
                    old(ctx).deal.key,
                    old(ctx).deal.data,
                    final(ctx).deal.data,
                    effects@.actions,
                )
            },
            Err(e) => old(ctx).rejection(side, amount) == Some(e) && *final(ctx) == *old(ctx),
        },
        old(ctx).deal.data.wf() ==> final(ctx).deal.data.wf(),
{
    match check_open_to_margin(&ctx.deal.data, amount) {
        Ok(_) => {},
        Err(e) => {
            return Err(e);
        },
    }
    match only_party(&ctx.deal.data, &ctx.payer, side) {
        Ok(_) => {},
        Err(e) => {
            return Err(e);
        },
    }
    let margin = match ctx.deal.data.margin(side).checked_add(amount) {
        Some(margin) => margin,
        None => {
            return Err(ErrorCode::MathOverflow);
        },
    };
    let action = transfer_by_signer(
        LedgerAccount::Wallet { owner: ctx.payer, mint: ctx.deal.data.quote_mint },
        LedgerAccount::MarginVault { deal: ctx.deal.key, side },
        &ctx.payer,
        amount,
    );
    proof {
        lemma_net_flow_one(
            action,
            LedgerAccount::MarginVault { deal: ctx.deal.key, side: Side::Long },
        );
        lemma_net_flow_one(
            action,
            LedgerAccount::MarginVault { deal: ctx.deal.key, side: Side::Short },
        );
    }
    ctx.deal.data.set_margin(side, margin);
    let event = Event::MarginDeposited(
        MarginDeposited { deal: ctx.deal.key, side: side.code(), amount },
    );
    Ok(Effects::one_action(action, event))
}

} // verus!
