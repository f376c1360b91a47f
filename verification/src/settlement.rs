//! Settlement: in cash, by delivery, and by partial delivery.
//!
//! Every settlement computes on a snapshot of the deal taken before anything
//! is changed, and on the balances that the two margin vaults hold at that
//! moment. A settlement that a vault cannot cover is refused as a whole.

use vstd::prelude::*;
use crate::events::{
    CashSettled, Effects, EffectsView, Event, PartialPhysicalSettled, PhysicalSettled,
};
use crate::deal::margins_mirror_ledger;
use crate::ledger::{
    lemma_net_flow_concat, lemma_net_flow_one, lemma_net_flow_push, net_flow, transfer_by_signer,
    transfer_signed, Authority, LedgerAccount, LedgerAction,
};
use crate::math::{
    calc_pnl_long, notional_at_strike, spec_fee, spec_notional, spec_pnl_long, wide_mul,
};
use crate::state::{Account, Deal, DealSnapshot, Market, MarketSnapshot};
use crate::types::{ErrorCode, SettlementKind, Side, BPS_DENOMINATOR};

verus! {

/// The magnitude of `x`.
pub open spec fn spec_abs(x: int) -> nat {
    if x < 0 {
        (-x) as nat
    } else {
        x as nat
    }
}

/// The margin vault of `side`.
pub open spec fn margin_vault(ds: DealSnapshot, side: Side) -> LedgerAccount {
    LedgerAccount::MarginVault { deal: ds.deal, side }
}

/// The balance that the party on `side` holds of the deal's collateral.
pub open spec fn collateral_wallet(ds: DealSnapshot, side: Side) -> LedgerAccount {
    LedgerAccount::Wallet { owner: ds.spec_party(side), mint: ds.quote_mint }
}

/// Pays `amount` out of the margin vault of `from` to the party on `to`.
pub open spec fn vault_payout(ds: DealSnapshot, from: Side, to: Side, amount: u64) -> LedgerAction {
    LedgerAction::Transfer {
        from: margin_vault(ds, from),
        to: collateral_wallet(ds, to),
        authority: Authority::Record { key: ds.deal, bump: ds.vault_bump },
        amount,
    }
}

/// Pays `fee` out of the margin vault of `from` to the market's fee vault.
pub open spec fn fee_payment(ds: DealSnapshot, from: Side, fee: u64) -> LedgerAction {
    LedgerAction::Transfer {
        from: margin_vault(ds, from),
        to: LedgerAccount::FeeVault { market: ds.market, mint: ds.quote_mint },
        authority: Authority::Record { key: ds.deal, bump: ds.vault_bump },
        amount: fee,
    }
}

/// Delivers `amount` of the receipt asset from short to long.
pub open spec fn delivery(ds: DealSnapshot, amount: u64) -> LedgerAction {
    LedgerAction::Transfer {
        from: LedgerAccount::Wallet { owner: ds.short, mint: ds.receipt_mint },
        to: LedgerAccount::Wallet { owner: ds.long, mint: ds.receipt_mint },
        authority: Authority::Signer { key: ds.short },
        amount,
    }
}

/// Returns what is left in the margin vault of `side` to its party; nothing
/// where nothing is left.
pub open spec fn leftover(ds: DealSnapshot, side: Side, remaining: u64) -> Seq<LedgerAction> {
    if remaining > 0 {
        seq![vault_payout(ds, side, side, remaining)]
    } else {
        Seq::empty()
    }
}

/// The movements that pay a profit of `profit` to `winner` out of the other
/// side's margin vault: the profit less the fee to the winner, then the fee,
/// if there is one, to the market.
pub open spec fn profit_transfers(ds: DealSnapshot, winner: Side, profit: nat) -> Seq<LedgerAction> {
    let fee = spec_fee(profit, ds.fee_bps as nat);
    let pay = vault_payout(ds, winner.spec_opposite(), winner, (profit - fee) as u64);
    if fee > 0 {
        seq![pay, fee_payment(ds, winner.spec_opposite(), fee as u64)]
    } else {
        seq![pay]
    }
}

/// Why a cash settlement with profit `pnl_long` cannot be paid, if it
/// cannot: the losing vault holds less than the profit, or the fee exceeds
/// the profit.
pub open spec fn cash_rejection(
    ds: DealSnapshot,
    pnl_long: int,
    long_balance: u64,
    short_balance: u64,
) -> Option<ErrorCode> {
    let profit = spec_abs(pnl_long);
    let losing_balance = if pnl_long > 0 {
        short_balance
    } else {
        long_balance
    };
    if pnl_long == 0 {
        None
    } else if profit > losing_balance {
        Some(ErrorCode::InsufficientBalance)
    } else if spec_fee(profit, ds.fee_bps as nat) > profit {
        Some(ErrorCode::MathOverflow)
    } else {
        None
    }
}

/// The movements of a cash settlement: the profit and the fee out of the
/// losing vault, then everything that is left in the long vault to long and
/// everything that is left in the short vault to short.
pub open spec fn cash_actions(
    ds: DealSnapshot,
    pnl_long: int,
    long_balance: u64,
    short_balance: u64,
) -> Seq<LedgerAction> {
    let profit = spec_abs(pnl_long);
    let long_left = if pnl_long < 0 {
        long_balance - profit
    } else {
        long_balance as int
    };
    let short_left = if pnl_long > 0 {
        short_balance - profit
    } else {
        short_balance as int
    };
    let paid = if pnl_long > 0 {
        profit_transfers(ds, Side::Long, profit)
    } else if pnl_long < 0 {
        profit_transfers(ds, Side::Short, profit)
    } else {
        Seq::empty()
    };
    paid + leftover(ds, Side::Long, long_left as u64) + leftover(ds, Side::Short, short_left as u64)
}

/// The profit transfers take exactly `profit` out of the losing vault and
/// leave the winning vault alone.
pub proof fn lemma_profit_transfers_flows(ds: DealSnapshot, winner: Side, profit: nat)
    requires
        profit <= u64::MAX,
        spec_fee(profit, ds.fee_bps as nat) <= profit,
    ensures
        net_flow(profit_transfers(ds, winner, profit), margin_vault(ds, winner.spec_opposite()))
            == -(profit as int),
        net_flow(profit_transfers(ds, winner, profit), margin_vault(ds, winner)) == 0,
{
    let fee = spec_fee(profit, ds.fee_bps as nat);
    let loser = winner.spec_opposite();
    let pay = vault_payout(ds, loser, winner, (profit - fee) as u64);
    let fee_pay = fee_payment(ds, loser, fee as u64);
    lemma_net_flow_one(pay, margin_vault(ds, loser));
    lemma_net_flow_one(pay, margin_vault(ds, winner));
    if fee > 0 {
        assert(profit_transfers(ds, winner, profit) =~= seq![pay].push(fee_pay));
        lemma_net_flow_push(seq![pay], fee_pay, margin_vault(ds, loser));
        lemma_net_flow_push(seq![pay], fee_pay, margin_vault(ds, winner));
    }
}

/// Returning what is left takes exactly that out of the side's own vault.
pub proof fn lemma_leftover_flows(ds: DealSnapshot, side: Side, remaining: u64, vault_side: Side)
    ensures
        net_flow(leftover(ds, side, remaining), margin_vault(ds, vault_side)) == if vault_side
            == side {
            -(remaining as int)
        } else {
            0
        },
{
    if remaining > 0 {
        lemma_net_flow_one(vault_payout(ds, side, side, remaining), margin_vault(ds, vault_side));
    }
}

/// Margin is never retained once a deal settles in cash: the movements take
/// out of each margin vault exactly what it held.
pub proof fn lemma_cash_settlement_empties_vaults(
    ds: DealSnapshot,
    pnl_long: int,
    long_balance: u64,
    short_balance: u64,
)
    requires
        cash_rejection(ds, pnl_long, long_balance, short_balance) is None,
    ensures
        net_flow(
            cash_actions(ds, pnl_long, long_balance, short_balance),
            margin_vault(ds, Side::Long),
        ) == -(long_balance as int),
        net_flow(
            cash_actions(ds, pnl_long, long_balance, short_balance),
            margin_vault(ds, Side::Short),
        ) == -(short_balance as int),
{
    let profit = spec_abs(pnl_long);
    let long_left = if pnl_long < 0 {
        long_balance - profit
    } else {
        long_balance as int
    };
    let short_left = if pnl_long > 0 {
        short_balance - profit
    } else {
        short_balance as int
    };
    let paid = if pnl_long > 0 {
        profit_transfers(ds, Side::Long, profit)
    } else if pnl_long < 0 {
        profit_transfers(ds, Side::Short, profit)
    } else {
        Seq::empty()
    };
    let long_rest = leftover(ds, Side::Long, long_left as u64);
    let short_rest = leftover(ds, Side::Short, short_left as u64);
    if pnl_long > 0 {
        lemma_profit_transfers_flows(ds, Side::Long, profit);
    } else if pnl_long < 0 {
        lemma_profit_transfers_flows(ds, Side::Short, profit);
    }
    lemma_leftover_flows(ds, Side::Long, long_left as u64, Side::Long);
    lemma_leftover_flows(ds, Side::Long, long_left as u64, Side::Short);
    lemma_leftover_flows(ds, Side::Short, short_left as u64, Side::Long);
    lemma_leftover_flows(ds, Side::Short, short_left as u64, Side::Short);
    lemma_net_flow_concat(paid, long_rest, margin_vault(ds, Side::Long));
    lemma_net_flow_concat(paid, long_rest, margin_vault(ds, Side::Short));
    lemma_net_flow_concat(paid + long_rest, short_rest, margin_vault(ds, Side::Long));
    lemma_net_flow_concat(paid + long_rest, short_rest, margin_vault(ds, Side::Short));
}

/// The magnitude of a signed amount.
pub fn abs_i128(x: i128) -> (magnitude: u128)
    ensures
        magnitude == spec_abs(x as int),
{
    if x >= 0 {
        x as u128
    } else if x == i128::MIN {
        170141183460469231731687303715884105728u128
    } else {
        (-x) as u128
    }
}

/// Appends the movement that returns what is left in the margin vault of
/// `side` to its party, if anything is left.
pub fn payout_leftovers_after_settlement(
    actions: &mut Vec<LedgerAction>,
    ds: &DealSnapshot,
    side: Side,
    remaining: u64,
)
    ensures
        final(actions)@ == old(actions)@ + leftover(*ds, side, remaining),
{
    if remaining > 0 {
        let owner = ds.party(side);
        actions.push(
            transfer_signed(
                LedgerAccount::MarginVault { deal: ds.deal, side },
                LedgerAccount::Wallet { owner, mint: ds.quote_mint },
                &ds.deal,
                ds.vault_bump,
                remaining,
            ),
        );
    }
    assert(actions@ =~= old(actions)@ + leftover(*ds, side, remaining));
}

/// Appends the movements that pay `profit` to `winner` and returns what
/// then remains in the losing vault, which held `losing_balance`.
///
/// Fails with `InsufficientBalance` where the losing vault holds less than
/// the profit, and with `MathOverflow` where the fee exceeds the profit;
/// then nothing is appended.
pub fn pay_profit(
    actions: &mut Vec<LedgerAction>,
    ds: &DealSnapshot,
    winner: Side,
    profit: u128,
    losing_balance: u64,
) -> (r: Result<u64, ErrorCode>)
    ensures
        match r {
            Ok(remaining) => {
                &&& profit <= losing_balance
                &&& spec_fee(profit as nat, ds.fee_bps as nat) <= profit
                &&& remaining == losing_balance - profit
                &&& final(actions)@ == old(actions)@ + profit_transfers(*ds, winner, profit as nat)
            },
            Err(e) => {
                &&& final(actions)@ == old(actions)@
                &&& if profit > losing_balance {
                    e == ErrorCode::InsufficientBalance
                } else {
                    e == ErrorCode::MathOverflow && spec_fee(profit as nat, ds.fee_bps as nat)
                        > profit
                }
            },
        },
{
    if profit > losing_balance as u128 {
        return Err(ErrorCode::InsufficientBalance);
    }
    let profit: u64 = profit as u64;
    let fee: u128 = wide_mul(profit, ds.fee_bps as u64) / (BPS_DENOMINATOR as u128);
    if fee > profit as u128 {
        return Err(ErrorCode::MathOverflow);
    }
    let fee: u64 = fee as u64;
    let amount: u64 = profit - fee;
    let loser = winner.opposite();
    let recipient = ds.party(winner);
    actions.push(
        transfer_signed(
            LedgerAccount::MarginVault { deal: ds.deal, side: loser },
            LedgerAccount::Wallet { owner: recipient, mint: ds.quote_mint },
            &ds.deal,
            ds.vault_bump,
            amount,
        ),
    );
    if fee > 0 {
        actions.push(
            transfer_signed(
                LedgerAccount::MarginVault { deal: ds.deal, side: loser },
                LedgerAccount::FeeVault { market: ds.market, mint: ds.quote_mint },
                &ds.deal,
                ds.vault_bump,
                fee,
            ),
        );
    }
    assert(actions@ =~= old(actions)@ + profit_transfers(*ds, winner, profit as nat));
    Ok(losing_balance - profit)
}

/// The movements of a cash settlement with profit `pnl_long` for the long
/// side, where the margin vaults hold `long_balance` and `short_balance`.
///
/// A positive profit is paid to long out of the short vault, a negative one
/// to short out of the long vault; the fee on it goes to the market's fee
/// vault out of the same vault. Whatever is then left in either vault goes
/// back to its own party. Fails, with nothing paid, where the losing vault
/// does not hold the profit.
pub fn settle_cash_inner(
    ds: &DealSnapshot,
    pnl_long: i128,
    long_balance: u64,
    short_balance: u64,
) -> (r: Result<Vec<LedgerAction>, ErrorCode>)
    ensures
        match r {
            Ok(actions) => {
                &&& cash_rejection(*ds, pnl_long as int, long_balance, short_balance) is None
                &&& actions@ == cash_actions(*ds, pnl_long as int, long_balance, short_balance)
                &&& net_flow(actions@, margin_vault(*ds, Side::Long)) == -(long_balance as int)
                &&& net_flow(actions@, margin_vault(*ds, Side::Short)) == -(short_balance as int)
            },
            Err(e) => cash_rejection(*ds, pnl_long as int, long_balance, short_balance) == Some(e),
        },
{
    let mut actions: Vec<LedgerAction> = Vec::new();
    let mut long_left: u64 = long_balance;
    let mut short_left: u64 = short_balance;
    let profit = abs_i128(pnl_long);
    if pnl_long > 0 {
        match pay_profit(&mut actions, ds, Side::Long, profit, short_balance) {
            Ok(remaining) => {
                short_left = remaining;
            },
            Err(e) => {
                return Err(e);
            },
        }
    } else if pnl_long < 0 {
        match pay_profit(&mut actions, ds, Side::Short, profit, long_balance) {
            Ok(remaining) => {
                long_left = remaining;
            },
            Err(e) => {
                return Err(e);
            },
        }
    }
    payout_leftovers_after_settlement(&mut actions, ds, Side::Long, long_left);
    payout_leftovers_after_settlement(&mut actions, ds, Side::Short, short_left);
    proof {
        assert(actions@ =~= cash_actions(*ds, pnl_long as int, long_balance, short_balance));
        lemma_cash_settlement_empties_vaults(*ds, pnl_long as int, long_balance, short_balance);
    }
    Ok(actions)
}

/// What `settle_cash` works on: the deal, its market, and what the two
/// margin vaults hold.
#[derive(Clone, Copy, Debug, PartialEq, Eq)]
pub struct SettleCash {
    pub market: Account<Market>,
    pub deal: Account<Deal>,
    pub long_vault_balance: u64,
    pub short_vault_balance: u64,
}

impl SettleCash {
    /// Profit of the long side at the market's last price.
    pub open spec fn pnl_long(self) -> int {
        spec_pnl_long(
            self.deal.data.strike_price as int,
            self.market.data.last_price as int,
            self.deal.data.qty_receipt_amount as int,
            self.deal.data.price_exponent as int,
        )
    }

    /// Why `settle_cash` refuses at time `now`, if it does: the first of its
    /// preconditions that fails.
    pub open spec fn rejection(self, now: i64) -> Option<ErrorCode> {
        if self.deal.data.market != self.market.key {
            Some(ErrorCode::ConstraintMismatch)
        } else if self.deal.data.is_frozen {
            Some(ErrorCode::DealFrozen)
        } else if self.deal.data.is_settled {
            Some(ErrorCode::AlreadySettled)
        } else if self.deal.data.settlement_kind != SettlementKind::Cash {
            Some(ErrorCode::WrongSettlementKind)
        } else if now < self.deal.data.settle_ts {
            Some(ErrorCode::TooEarlyToSettle)
        } else if self.market.data.last_price == 0 {
            Some(ErrorCode::NoSettlementPrice)
        } else if !(i128::MIN <= self.pnl_long() <= i128::MAX) {
            Some(ErrorCode::MathOverflow)
        } else {
            cash_rejection(
                DealSnapshot::spec_from(self.deal),
                self.pnl_long(),
                self.long_vault_balance,
                self.short_vault_balance,
            )
        }
    }

    /// The context after a successful settlement: the deal is settled and
    /// records no margin, as its vaults hold none; nothing else changed.
    pub open spec fn settled(self) -> SettleCash {
        SettleCash {
            deal: Account {
                key: self.deal.key,
                data: Deal {
                    is_settled: true,
                    long_margin: 0,
                    short_margin: 0,
                    ..self.deal.data
                },
            },
            ..self
        }
    }

    /// Whether the deal records what its vaults hold.
    pub open spec fn books_balanced(self) -> bool {
        &&& self.deal.data.long_margin == self.long_vault_balance
        &&& self.deal.data.short_margin == self.short_vault_balance
    }

    /// What a successful settlement asks for.
    pub open spec fn effects(self) -> EffectsView {
        EffectsView {
            actions: cash_actions(
                DealSnapshot::spec_from(self.deal),
                self.pnl_long(),
                self.long_vault_balance,
                self.short_vault_balance,
            ),
            event: Some(
                Event::CashSettled(
                    CashSettled {
                        deal: self.deal.key,
                        final_price: self.market.data.last_price,
                        pnl_long: self.pnl_long() as i128,
                    },
                ),
            ),
        }
    }
}

/// Settles a cash deal at the market's last posted price.
///
/// Requires a deal of this market that is neither frozen nor settled, of
/// kind `Cash`, whose settlement time has come, and a posted price above
/// zero. The profit of the long side is computed from the deal and the price
/// as they stand before the call; the winner receives it less the fee out of
/// the loser's margin vault, the fee goes to the market's fee vault, and all
/// that is left in both vaults returns to its party. The deal is then
/// settled and records no margin. Fails as a whole where the loser's vault
/// does not hold the profit.
pub fn settle_cash(ctx: &mut SettleCash, now: i64) -> (r: Result<Effects, ErrorCode>)
    ensures
        match r {
            Ok(effects) => {
                &&& old(ctx).rejection(now) is None
                &&& *final(ctx) == old(ctx).settled()
                &&& effects@ == old(ctx).effects()
                &&& net_flow(
                    effects@.actions,
                    LedgerAccount::MarginVault { deal: old(ctx).deal.key, side: Side::Long },
                ) == -(old(ctx).long_vault_balance as int)
                &&& net_flow(
                    effects@.actions,
                    LedgerAccount::MarginVault { deal: old(ctx).deal.key, side: Side::Short },
                ) == -(old(ctx).short_vault_balance as int)
                &&& final(ctx).deal.data.long_margin == 0
                &&& final(ctx).deal.data.short_margin == 0
                &&& old(ctx).books_balanced() ==> margins_mirror_ledger(
                    old(ctx).deal.key,
                    old(ctx).deal.data,
                    final(ctx).deal.data,
                    effects@.actions,
                )
            },
            Err(e) => old(ctx).rejection(now) == Some(e) && *final(ctx) == *old(ctx),
        },
        old(ctx).deal.data.wf() ==> final(ctx).deal.data.wf(),
{
    if ctx.deal.data.market != ctx.market.key {
        return Err(ErrorCode::ConstraintMismatch);
    }
    if ctx.deal.data.is_frozen {
        return Err(ErrorCode::DealFrozen);
    }
    if ctx.deal.data.is_settled {
        return Err(ErrorCode::AlreadySettled);
    }
    if ctx.deal.data.settlement_kind != SettlementKind::Cash {
        return Err(ErrorCode::WrongSettlementKind);
    }
    if now < ctx.deal.data.settle_ts {
        return Err(ErrorCode::TooEarlyToSettle);
    }
    if ctx.market.data.last_price == 0 {
        return Err(ErrorCode::NoSettlementPrice);
    }
    let ds = DealSnapshot::from(&ctx.deal);
    let ms = MarketSnapshot::from(&ctx.market);
    let pnl_long = match calc_pnl_long(&ds, &ms, ds.qty_receipt_amount) {
        Ok(pnl_long) => pnl_long,
        Err(e) => {
            return Err(e);
        },
    };
    let actions = match settle_cash_inner(
        &ds,
        pnl_long,
        ctx.long_vault_balance,
        ctx.short_vault_balance,
    ) {
        Ok(actions) => actions,
        Err(e) => {
            return Err(e);
        },
    };
    ctx.deal.data.is_settled = true;
    ctx.deal.data.long_margin = 0;
    ctx.deal.data.short_margin = 0;
    let event = Event::CashSettled(
        CashSettled { deal: ds.deal, final_price: ms.last_price, pnl_long },
    );
    Ok(Effects { actions, event: Some(event) })
}

/// What the two physical settlements work on: the deal and what its two
/// margin vaults hold. The delivery is short's to authorise: the movement
/// that delivers names short as its authority.
#[derive(Clone, Copy, Debug, PartialEq, Eq)]
pub struct SettlePhysical {
    pub deal: Account<Deal>,
    pub long_vault_balance: u64,
    pub short_vault_balance: u64,
}

impl SettlePhysical {
    /// What long pays short for `amount_receipt` units at the strike.
    pub open spec fn pay_amount(self, amount_receipt: u64) -> nat {
        spec_notional(
            self.deal.data.strike_price as nat,
            amount_receipt as nat,
            self.deal.data.price_exponent as int,
        )
    }

    /// The snapshot that a delivery of `amount_receipt` units computes on.
    pub open spec fn snapshot(self, amount_receipt: u64) -> DealSnapshot {
        DealSnapshot { qty_receipt_amount: amount_receipt, ..DealSnapshot::spec_from(self.deal) }
    }

    /// Why neither physical settlement can start at time `now`, if so: the
    /// deal is frozen or settled or not a physical one, or its settlement
    /// time has not come.
    pub open spec fn not_deliverable(self, now: i64) -> Option<ErrorCode> {
        if self.deal.data.is_frozen {
            Some(ErrorCode::DealFrozen)
        } else if self.deal.data.is_settled {
            Some(ErrorCode::AlreadySettled)
        } else if self.deal.data.settlement_kind != SettlementKind::Physical {
            Some(ErrorCode::WrongSettlementKind)
        } else if now < self.deal.data.settle_ts {
            Some(ErrorCode::TooEarlyToSettle)
        } else {
            None
        }
    }

    /// Why the payment for `amount_receipt` units cannot be made, if it
    /// cannot.
    pub open spec fn not_payable(self, amount_receipt: u64) -> Option<ErrorCode> {
        if self.pay_amount(amount_receipt) > u64::MAX {
            Some(ErrorCode::MathOverflow)
        } else if self.pay_amount(amount_receipt) > self.long_vault_balance {
            Some(ErrorCode::InsufficientBalance)
        } else {
            None
        }
    }

    /// Why `settle_physical` refuses at time `now`, if it does.
    pub open spec fn rejection(self, now: i64) -> Option<ErrorCode> {
        if self.not_deliverable(now) is Some {
            self.not_deliverable(now)
        } else {
            self.not_payable(self.deal.data.qty_receipt_amount)
        }
    }

    /// Why `settle_partial_physical` refuses at time `now`, if it does. A
    /// payment above the recorded margin of long is refused as an arithmetic
    /// failure: the record and the vault have come apart.
    pub open spec fn partial_rejection(self, now: i64, amount_receipt: u64) -> Option<ErrorCode> {
        if self.not_deliverable(now) is Some {
            self.not_deliverable(now)
        } else if amount_receipt == 0 || amount_receipt > self.deal.data.qty_receipt_amount {
            Some(ErrorCode::InvalidPartialAmount)
        } else if self.not_payable(amount_receipt) is Some {
            self.not_payable(amount_receipt)
        } else if self.pay_amount(amount_receipt) > self.deal.data.long_margin {
            Some(ErrorCode::MathOverflow)
        } else {
            None
        }
    }

    /// Delivery of `amount_receipt` units against payment: the receipts from
    /// short to long, then their price from the long vault to short.
    pub open spec fn exchange(self, amount_receipt: u64) -> Seq<LedgerAction> {
        let ds = self.snapshot(amount_receipt);
        seq![
            delivery(ds, amount_receipt),
            vault_payout(ds, Side::Long, Side::Short, self.pay_amount(amount_receipt) as u64),
        ]
    }

    /// The movements of a full settlement: the exchange of everything, then
    /// what is left in either vault back to its party.
    pub open spec fn full_actions(self) -> Seq<LedgerAction> {
        let qty = self.deal.data.qty_receipt_amount;
        let ds = self.snapshot(qty);
        self.exchange(qty) + leftover(
            ds,
            Side::Long,
            (self.long_vault_balance - self.pay_amount(qty)) as u64,
        ) + leftover(ds, Side::Short, self.short_vault_balance)
    }

    /// The context after a full settlement: the deal is settled and records
    /// no margin, as its vaults hold none; nothing else changed.
    pub open spec fn settled(self) -> SettlePhysical {
        SettlePhysical {
            deal: Account {
                key: self.deal.key,
                data: Deal {
                    is_settled: true,
                    long_margin: 0,
                    short_margin: 0,
                    ..self.deal.data
                },
            },
            ..self
        }
    }

    /// Whether the deal records what its vaults hold.
    pub open spec fn books_balanced(self) -> bool {
        &&& self.deal.data.long_margin == self.long_vault_balance
        &&& self.deal.data.short_margin == self.short_vault_balance
    }

    /// The context after a delivery of `amount_receipt` units: the open
    /// quantity shrinks by them, the recorded margin of long by their price,
    /// and the deal is settled once no quantity is open.
    pub open spec fn delivered(self, amount_receipt: u64) -> SettlePhysical {
        let open_qty = (self.deal.data.qty_receipt_amount - amount_receipt) as u64;
        SettlePhysical {
            deal: Account {
                key: self.deal.key,
                data: Deal {
                    qty_receipt_amount: open_qty,
                    long_margin: (self.deal.data.long_margin - self.pay_amount(
                        amount_receipt,
                    )) as u64,
                    is_settled: open_qty == 0,
                    ..self.deal.data
                },
            },
            ..self
        }
    }

    /// What a full settlement asks for.
    pub open spec fn effects(self) -> EffectsView {
        EffectsView {
            actions: self.full_actions(),
            event: Some(
                Event::PhysicalSettled(
                    PhysicalSettled {
                        deal: self.deal.key,
                        qty_receipt_amount: self.deal.data.qty_receipt_amount,
                        pay_amount: self.pay_amount(self.deal.data.qty_receipt_amount) as u64,
                    },
                ),
            ),
        }
    }

    /// What a delivery of `amount_receipt` units asks for.
    pub open spec fn partial_effects(self, amount_receipt: u64) -> EffectsView {
        EffectsView {
            actions: self.exchange(amount_receipt),
            event: Some(
                Event::PartialPhysicalSettled(
                    PartialPhysicalSettled {
                        deal: self.deal.key,
                        amount_receipt,
                        pay_amount: self.pay_amount(amount_receipt) as u64,
                        fully_settled: amount_receipt == self.deal.data.qty_receipt_amount,
                    },
                ),
            ),
        }
    }
}

/// The exchange takes the payment out of the long vault and leaves the
/// short vault alone.
pub proof fn lemma_exchange_flows(ctx: SettlePhysical, amount_receipt: u64)
    requires
        ctx.pay_amount(amount_receipt) <= u64::MAX,
    ensures
        net_flow(
            ctx.exchange(amount_receipt),
            LedgerAccount::MarginVault { deal: ctx.deal.key, side: Side::Long },
        ) == -(ctx.pay_amount(amount_receipt) as int),
        net_flow(
            ctx.exchange(amount_receipt),
            LedgerAccount::MarginVault { deal: ctx.deal.key, side: Side::Short },
        ) == 0,
{
    let ds = ctx.snapshot(amount_receipt);
    let deliver = delivery(ds, amount_receipt);
    let pay = vault_payout(ds, Side::Long, Side::Short, ctx.pay_amount(amount_receipt) as u64);
    let long_vault = LedgerAccount::MarginVault { deal: ctx.deal.key, side: Side::Long };
    let short_vault = LedgerAccount::MarginVault { deal: ctx.deal.key, side: Side::Short };
    assert(ctx.exchange(amount_receipt) =~= seq![deliver].push(pay));
    lemma_net_flow_one(deliver, long_vault);
    lemma_net_flow_one(deliver, short_vault);
    lemma_net_flow_push(seq![deliver], pay, long_vault);
    lemma_net_flow_push(seq![deliver], pay, short_vault);
}

/// Margin is never retained once a deal settles by delivery: the movements
/// take out of each margin vault exactly what it held.
pub proof fn lemma_physical_settlement_empties_vaults(ctx: SettlePhysical)
    requires
        ctx.not_payable(ctx.deal.data.qty_receipt_amount) is None,
    ensures
        net_flow(
            ctx.full_actions(),
            LedgerAccount::MarginVault { deal: ctx.deal.key, side: Side::Long },
        ) == -(ctx.long_vault_balance as int),
        net_flow(
            ctx.full_actions(),
            LedgerAccount::MarginVault { deal: ctx.deal.key, side: Side::Short },
        ) == -(ctx.short_vault_balance as int),
{
    let qty = ctx.deal.data.qty_receipt_amount;
    let ds = ctx.snapshot(qty);
    let long_left = (ctx.long_vault_balance - ctx.pay_amount(qty)) as u64;
    let long_rest = leftover(ds, Side::Long, long_left);
    let short_rest = leftover(ds, Side::Short, ctx.short_vault_balance);
    let long_vault = LedgerAccount::MarginVault { deal: ctx.deal.key, side: Side::Long };
    let short_vault = LedgerAccount::MarginVault { deal: ctx.deal.key, side: Side::Short };
    lemma_exchange_flows(ctx, qty);
    lemma_leftover_flows(ds, Side::Long, long_left, Side::Long);
    lemma_leftover_flows(ds, Side::Long, long_left, Side::Short);
    lemma_leftover_flows(ds, Side::Short, ctx.short_vault_balance, Side::Long);
    lemma_leftover_flows(ds, Side::Short, ctx.short_vault_balance, Side::Short);
    lemma_net_flow_concat(ctx.exchange(qty), long_rest, long_vault);
    lemma_net_flow_concat(ctx.exchange(qty), long_rest, short_vault);
    lemma_net_flow_concat(ctx.exchange(qty) + long_rest, short_rest, long_vault);
    lemma_net_flow_concat(ctx.exchange(qty) + long_rest, short_rest, short_vault);
}

/// The checks that both physical settlements make before anything else.
pub fn check_deliverable(ctx: &SettlePhysical, now: i64) -> (r: Result<(), ErrorCode>)
    ensures
        match r {
            Ok(_) => ctx.not_deliverable(now) is None,
            Err(e) => ctx.not_deliverable(now) == Some(e),
        },
{
    if ctx.deal.data.is_frozen {
        return Err(ErrorCode::DealFrozen);
    }
    if ctx.deal.data.is_settled {
        return Err(ErrorCode::AlreadySettled);
    }
    if ctx.deal.data.settlement_kind != SettlementKind::Physical {
        return Err(ErrorCode::WrongSettlementKind);
    }
    if now < ctx.deal.data.settle_ts {
        return Err(ErrorCode::TooEarlyToSettle);
    }
    Ok(())
}

/// The delivery of the snapshot's quantity against its price at the strike,
/// and what then remains in the long vault, which held `long_balance`.
pub fn exchange_at_strike(ds: &DealSnapshot, long_balance: u64) -> (r: Result<
    (Vec<LedgerAction>, u64, u64),
    ErrorCode,
>)
    ensures
        match r {
            Ok((actions, pay_amount, long_left)) => {
                &&& pay_amount == spec_notional(
                    ds.strike_price as nat,
                    ds.qty_receipt_amount as nat,
                    ds.price_exponent as int,
                )
                &&& pay_amount <= long_balance
                &&& long_left == long_balance - pay_amount
                &&& actions@ == seq![
                    delivery(*ds, ds.qty_receipt_amount),
                    vault_payout(*ds, Side::Long, Side::Short, pay_amount),
                ]
            },
            Err(e) => {
                let owed = spec_notional(
                    ds.strike_price as nat,
                    ds.qty_receipt_amount as nat,
                    ds.price_exponent as int,
                );
                if owed > u64::MAX {
                    e == ErrorCode::MathOverflow
                } else {
                    e == ErrorCode::InsufficientBalance && owed > long_balance
                }
            },
        },
{
    let pay_amount = match notional_at_strike(ds) {
        Ok(pay_amount) => pay_amount,
        Err(e) => {
            return Err(e);
        },
    };
    if pay_amount > long_balance {
        return Err(ErrorCode::InsufficientBalance);
    }
    let mut actions: Vec<LedgerAction> = Vec::new();
    actions.push(
        transfer_by_signer(
            LedgerAccount::Wallet { owner: ds.short, mint: ds.receipt_mint },
            LedgerAccount::Wallet { owner: ds.long, mint: ds.receipt_mint },
            &ds.short,
            ds.qty_receipt_amount,
        ),
    );
    actions.push(
        transfer_signed(
            LedgerAccount::MarginVault { deal: ds.deal, side: Side::Long },
            LedgerAccount::Wallet { owner: ds.short, mint: ds.quote_mint },
            &ds.deal,
            ds.vault_bump,
            pay_amount,
        ),
    );
    assert(actions@ =~= seq![
        delivery(*ds, ds.qty_receipt_amount),
        vault_payout(*ds, Side::Long, Side::Short, pay_amount),
    ]);
    Ok((actions, pay_amount, long_balance - pay_amount))
}

/// Settles a physical deal in full.
///
/// Requires a deal that is neither frozen nor settled, of kind `Physical`,
/// whose settlement time has come. Short delivers the whole open quantity
/// of the receipt asset to long, long pays its value at the strike out of
/// the long margin vault, and all that is left in both vaults returns to
/// its party. The deal is then settled and records no margin. Fails as a
/// whole where the long vault does not hold the payment.
pub fn settle_physical(ctx: &mut SettlePhysical, now: i64) -> (r: Result<Effects, ErrorCode>)
    ensures
        match r {
            Ok(effects) => {
                &&& old(ctx).rejection(now) is None
                &&& *final(ctx) == old(ctx).settled()
                &&& effects@ == old(ctx).effects()
                &&& net_flow(
                    effects@.actions,
                    LedgerAccount::MarginVault { deal: old(ctx).deal.key, side: Side::Long },
                ) == -(old(ctx).long_vault_balance as int)
                &&& net_flow(
                    effects@.actions,
                    LedgerAccount::MarginVault { deal: old(ctx).deal.key, side: Side::Short },
                ) == -(old(ctx).short_vault_balance as int)
                &&& final(ctx).deal.data.long_margin == 0
                &&& final(ctx).deal.data.short_margin == 0
                &&& old(ctx).books_balanced() ==> margins_mirror_ledger(
                    old(ctx).deal.key,
                    old(ctx).deal.data,
                    final(ctx).deal.data,
                    effects@.actions,
                )
            },
            Err(e) => old(ctx).rejection(now) == Some(e) && *final(ctx) == *old(ctx),
        },
        old(ctx).deal.data.wf() ==> final(ctx).deal.data.wf(),
{
    match check_deliverable(ctx, now) {
        Ok(_) => {},
        Err(e) => {
            return Err(e);
        },
    }
    let ds = DealSnapshot::from(&ctx.deal);
    let (mut actions, pay_amount, long_left) = match exchange_at_strike(
        &ds,
        ctx.long_vault_balance,
    ) {
        Ok(exchanged) => exchanged,
        Err(e) => {
            return Err(e);
        },
    };
    payout_leftovers_after_settlement(&mut actions, &ds, Side::Long, long_left);
    payout_leftovers_after_settlement(&mut actions, &ds, Side::Short, ctx.short_vault_balance);
    proof {
        assert(ds == ctx.snapshot(ctx.deal.data.qty_receipt_amount));
        assert(actions@ =~= ctx.full_actions());
        lemma_physical_settlement_empties_vaults(*ctx);
    }
    ctx.deal.data.is_settled = true;
    ctx.deal.data.long_margin = 0;
    ctx.deal.data.short_margin = 0;
    let event = Event::PhysicalSettled(
        PhysicalSettled { deal: ds.deal, qty_receipt_amount: ds.qty_receipt_amount, pay_amount },
    );
    Ok(Effects { actions, event: Some(event) })
}

/// Delivers `amount_receipt` units of a physical deal.
///
/// Requires what `settle_physical` requires, an amount above zero and
/// within the open quantity, and a recorded margin of long that covers the
/// payment. Short delivers that many units to long and long pays their value
/// at the strike out of the long margin vault; no margin is returned. The
/// open quantity shrinks by the amount and the recorded margin of long by
/// the payment, and the deal is settled when no quantity is left open.
pub fn settle_partial_physical(ctx: &mut SettlePhysical, now: i64, amount_receipt: u64) -> (r:
    Result<Effects, ErrorCode>)
    ensures
        match r {
            Ok(effects) => {
                &&& old(ctx).partial_rejection(now, amount_receipt) is None
                &&& *final(ctx) == old(ctx).delivered(amount_receipt)
                &&& effects@ == old(ctx).partial_effects(amount_receipt)
                &&& final(ctx).deal.data.is_settled <==> amount_receipt
                    == old(ctx).deal.data.qty_receipt_amount
                &&& margins_mirror_ledger(
                    old(ctx).deal.key,
                    old(ctx).deal.data,
                    final(ctx).deal.data,
                    effects@.actions,
                )
            },
            Err(e) => old(ctx).partial_rejection(now, amount_receipt) == Some(e) && *final(ctx)
                == *old(ctx),
        },
        old(ctx).deal.data.wf() ==> final(ctx).deal.data.wf(),
{
    match check_deliverable(ctx, now) {
        Ok(_) => {},
        Err(e) => {
            return Err(e);
        },
    }
    if !(amount_receipt > 0 && amount_receipt <= ctx.deal.data.qty_receipt_amount) {
        return Err(ErrorCode::InvalidPartialAmount);
    }
    let mut ds = DealSnapshot::from(&ctx.deal);
    ds.qty_receipt_amount = amount_receipt;
    let (actions, pay_amount, _) = match exchange_at_strike(&ds, ctx.long_vault_balance) {
        Ok(exchanged) => exchanged,
        Err(e) => {
            return Err(e);
        },
    };
    let long_margin = match ctx.deal.data.long_margin.checked_sub(pay_amount) {
        Some(long_margin) => long_margin,
        None => {
            return Err(ErrorCode::MathOverflow);
        },
    };
    proof {
        assert(ds == ctx.snapshot(amount_receipt));
        assert(actions@ =~= ctx.exchange(amount_receipt));
        lemma_exchange_flows(*ctx, amount_receipt);
    }
    let open_qty: u64 = ctx.deal.data.qty_receipt_amount - amount_receipt;
    let is_now_settled = open_qty == 0;
    ctx.deal.data.qty_receipt_amount = open_qty;
    ctx.deal.data.long_margin = long_margin;
    ctx.deal.data.is_settled = is_now_settled;
    let event = Event::PartialPhysicalSettled(
        PartialPhysicalSettled {
            deal: ds.deal,
            amount_receipt,
            pay_amount,
            fully_settled: is_now_settled,
        },
    );
    Ok(Effects { actions, event: Some(event) })
}

} // verus!
