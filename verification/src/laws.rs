//! Laws of the engine: what holds of every deal and every market across
//! several operations.

use vstd::prelude::*;
use crate::cross_margin::{CmMoveFromDeal, CmMoveToDeal};
use crate::deal::{margins_mirror_ledger, DepositMargin};
use crate::keys::Pubkey;
use crate::ledger::{
    apply_all, balance_of, lemma_apply_all_changes_by_net_flow, LedgerAccount, LedgerAction,
};
use crate::market::AdminMarketWrite;
use crate::parking::YieldPark;
use crate::settlement::{
    leftover, lemma_cash_settlement_empties_vaults, lemma_physical_settlement_empties_vaults,
    SettleCash, SettlePhysical,
};
use crate::state::{Deal, DealSnapshot};
use crate::types::{ErrorCode, Side};

verus! {

/// The accounting identity. Where the margin vaults of a deal hold what the
/// deal records before an operation that keeps the books, and the ledger
/// makes that operation's movements, the vaults hold what the deal records
/// after it.
pub proof fn lemma_recorded_margin_tracks_vaults(
    deal: Pubkey,
    before: Deal,
    after: Deal,
    actions: Seq<LedgerAction>,
    balances: Map<LedgerAccount, nat>,
)
    requires
        margins_mirror_ledger(deal, before, after, actions),
        apply_all(balances, actions) is Some,
        balance_of(balances, LedgerAccount::MarginVault { deal, side: Side::Long })
            == before.long_margin,
        balance_of(balances, LedgerAccount::MarginVault { deal, side: Side::Short })
            == before.short_margin,
    ensures
        balance_of(
            apply_all(balances, actions).unwrap(),
            LedgerAccount::MarginVault { deal, side: Side::Long },
        ) == after.long_margin,
        balance_of(
            apply_all(balances, actions).unwrap(),
            LedgerAccount::MarginVault { deal, side: Side::Short },
        ) == after.short_margin,
{
    lemma_apply_all_changes_by_net_flow(
        balances,
        actions,
        LedgerAccount::MarginVault { deal, side: Side::Long },
    );
    lemma_apply_all_changes_by_net_flow(
        balances,
        actions,
        LedgerAccount::MarginVault { deal, side: Side::Short },
    );
}

/// Settlement leaves the books balanced. Where the margin vaults of a deal
/// hold what a cash settlement was told they hold, and the ledger makes the
/// settlement's movements, both vaults end empty, which is what the settled
/// deal records.
pub proof fn lemma_cash_settlement_balances_books(
    ctx: SettleCash,
    now: i64,
    balances: Map<LedgerAccount, nat>,
)
    requires
        ctx.rejection(now) is None,
        apply_all(balances, ctx.effects().actions) is Some,
        balance_of(balances, LedgerAccount::MarginVault { deal: ctx.deal.key, side: Side::Long })
            == ctx.long_vault_balance,
        balance_of(balances, LedgerAccount::MarginVault { deal: ctx.deal.key, side: Side::Short })
            == ctx.short_vault_balance,
    ensures
        balance_of(
            apply_all(balances, ctx.effects().actions).unwrap(),
            LedgerAccount::MarginVault { deal: ctx.deal.key, side: Side::Long },
        ) == ctx.settled().deal.data.long_margin,
        balance_of(
            apply_all(balances, ctx.effects().actions).unwrap(),
            LedgerAccount::MarginVault { deal: ctx.deal.key, side: Side::Short },
        ) == ctx.settled().deal.data.short_margin,
        ctx.settled().deal.data.long_margin == 0,
        ctx.settled().deal.data.short_margin == 0,
{
    lemma_cash_settlement_empties_vaults(
        DealSnapshot::spec_from(ctx.deal),
        ctx.pnl_long(),
        ctx.long_vault_balance,
        ctx.short_vault_balance,
    );
    lemma_apply_all_changes_by_net_flow(
        balances,
        ctx.effects().actions,
        LedgerAccount::MarginVault { deal: ctx.deal.key, side: Side::Long },
    );
    lemma_apply_all_changes_by_net_flow(
        balances,
        ctx.effects().actions,
        LedgerAccount::MarginVault { deal: ctx.deal.key, side: Side::Short },
    );
}

/// The same of a full physical settlement: both vaults end empty, which is
/// what the settled deal records.
pub proof fn lemma_physical_settlement_balances_books(
    ctx: SettlePhysical,
    now: i64,
    balances: Map<LedgerAccount, nat>,
)
    requires
        ctx.rejection(now) is None,
        apply_all(balances, ctx.effects().actions) is Some,
        balance_of(balances, LedgerAccount::MarginVault { deal: ctx.deal.key, side: Side::Long })
            == ctx.long_vault_balance,
        balance_of(balances, LedgerAccount::MarginVault { deal: ctx.deal.key, side: Side::Short })
            == ctx.short_vault_balance,
    ensures
        balance_of(
            apply_all(balances, ctx.effects().actions).unwrap(),
            LedgerAccount::MarginVault { deal: ctx.deal.key, side: Side::Long },
        ) == ctx.settled().deal.data.long_margin,
        balance_of(
            apply_all(balances, ctx.effects().actions).unwrap(),
            LedgerAccount::MarginVault { deal: ctx.deal.key, side: Side::Short },
        ) == ctx.settled().deal.data.short_margin,
        ctx.settled().deal.data.long_margin == 0,
        ctx.settled().deal.data.short_margin == 0,
{
    lemma_physical_settlement_empties_vaults(ctx);
    lemma_apply_all_changes_by_net_flow(
        balances,
        ctx.effects().actions,
        LedgerAccount::MarginVault { deal: ctx.deal.key, side: Side::Long },
    );
    lemma_apply_all_changes_by_net_flow(
        balances,
        ctx.effects().actions,
        LedgerAccount::MarginVault { deal: ctx.deal.key, side: Side::Short },
    );
}

/// A settled deal is terminal: no settlement, no margin movement and no
/// parking succeeds on it, whatever else holds.
pub proof fn lemma_settled_deal_is_terminal(
    cash: SettleCash,
    physical: SettlePhysical,
    deposit: DepositMargin,
    to_deal: CmMoveToDeal,
    from_deal: CmMoveFromDeal,
    parking: YieldPark,
    now: i64,
    amount_receipt: u64,
    side: Side,
    amount: u64,
)
    ensures
        cash.deal.data.is_settled ==> cash.rejection(now) is Some,
        physical.deal.data.is_settled ==> physical.rejection(now) is Some,
        physical.deal.data.is_settled ==> physical.partial_rejection(now, amount_receipt) is Some,
        deposit.deal.data.is_settled ==> deposit.rejection(side, amount) is Some,
        to_deal.deal.data.is_settled ==> to_deal.rejection(side, amount) is Some,
        from_deal.deal.data.is_settled ==> from_deal.rejection(side, amount) is Some,
        parking.deal.data.is_settled ==> parking.rejection() is Some,
{
}

/// Cash settlement completes at most once: after a settlement that
/// succeeded, every further one on that deal fails with `AlreadySettled`,
/// at whatever time and whatever the market and the vaults then hold.
pub proof fn lemma_settle_cash_at_most_once(
    first: SettleCash,
    now: i64,
    again: SettleCash,
    later: i64,
)
    requires
        first.rejection(now) is None,
        again.deal == first.settled().deal,
        again.market.key == first.market.key,
    ensures
        again.rejection(later) == Some(ErrorCode::AlreadySettled),
{
}

/// Physical settlement completes at most once: after a full settlement that
/// succeeded, every further full or partial one on that deal fails with
/// `AlreadySettled`, at whatever time and whatever the vaults then hold.
pub proof fn lemma_settle_physical_at_most_once(
    first: SettlePhysical,
    now: i64,
    again: SettlePhysical,
    later: i64,
    amount_receipt: u64,
)
    requires
        first.rejection(now) is None,
        again.deal == first.settled().deal,
    ensures
        again.rejection(later) == Some(ErrorCode::AlreadySettled),
        again.partial_rejection(later, amount_receipt) == Some(ErrorCode::AlreadySettled),
{
}

/// Partial settlement completes at most once: after the delivery that took
/// the last open unit, every further full or partial settlement on that
/// deal fails with `AlreadySettled`; before that the deal stays open.
pub proof fn lemma_settle_partial_physical_at_most_once(
    first: SettlePhysical,
    now: i64,
    delivered: u64,
    again: SettlePhysical,
    later: i64,
    amount_receipt: u64,
)
    requires
        first.partial_rejection(now, delivered) is None,
        again.deal == first.delivered(delivered).deal,
    ensures
        delivered == first.deal.data.qty_receipt_amount ==> again.rejection(later) == Some(
            ErrorCode::AlreadySettled,
        ) && again.partial_rejection(later, amount_receipt) == Some(ErrorCode::AlreadySettled),
        delivered < first.deal.data.qty_receipt_amount ==> !again.deal.data.is_settled
            && again.deal.data.qty_receipt_amount == first.deal.data.qty_receipt_amount
            - delivered,
{
}

/// On a physical deal that is settled and not frozen, whose time has come,
/// every partial step fails with `AlreadySettled`, whatever the amount.
pub proof fn lemma_partial_step_on_settled_deal(ctx: SettlePhysical, now: i64, amount_receipt: u64)
    requires
        ctx.deal.data.is_settled,
        !ctx.deal.data.is_frozen,
    ensures
        ctx.rejection(now) == Some(ErrorCode::AlreadySettled),
        ctx.partial_rejection(now, amount_receipt) == Some(ErrorCode::AlreadySettled),
{
}

/// Pausing is idempotent, and so is lifting the pause: an administrator who
/// paused a market may pause it again, and the market is then as it was
/// after the first time, paused.
pub proof fn lemma_pause_market_idempotent(ctx: AdminMarketWrite, paused: bool)
    requires
        ctx.market.data.is_admin(ctx.signer),
    ensures
        ctx.with_paused(paused).market.data.is_admin(ctx.signer),
        ctx.with_paused(paused).market.data.is_paused == paused,
        ctx.with_paused(paused).with_paused(paused) == ctx.with_paused(paused),
{
}

/// Listing is idempotent: after an asset was listed, listing it again is
/// not refused and changes nothing.
pub proof fn lemma_add_allowed_collateral_idempotent(ctx: AdminMarketWrite, collateral_mint: Pubkey)
    requires
        ctx.market.data.wf(),
        ctx.add_rejection(collateral_mint) is None,
    ensures
        ({
            let once = ctx.with_market(ctx.added(collateral_mint));
            &&& once.market.data.allowed_list().contains(collateral_mint)
            &&& once.add_rejection(collateral_mint) is None
            &&& once.with_market(once.added(collateral_mint)) == once
        }),
{
    let m = ctx.market.data;
    let once = ctx.with_market(ctx.added(collateral_mint));
    if !m.allowed_list().contains(collateral_mint) {
        vstd::array::axiom_spec_array_update(
            m.allowed_collaterals,
            m.allowed_count as int,
            collateral_mint,
        );
        assert(once.market.data.allowed_list()[m.allowed_count as int] == collateral_mint);
    }
}

/// A partial settlement of the whole open quantity is a full delivery. On a
/// physical deal that is neither frozen nor settled, whose time has come and
/// whose long vault and recorded long margin both cover the price of the
/// open quantity, it succeeds, and so does a full settlement; both deliver
/// the whole quantity and pay its price, in the same two movements, and
/// both leave the deal settled. The full settlement goes on to return what
/// is left in the two vaults; the partial one leaves no quantity open.
pub proof fn lemma_partial_delivery_of_everything(ctx: SettlePhysical, now: i64)
    requires
        ctx.not_deliverable(now) is None,
        ctx.deal.data.qty_receipt_amount > 0,
        ctx.pay_amount(ctx.deal.data.qty_receipt_amount) <= ctx.long_vault_balance,
        ctx.pay_amount(ctx.deal.data.qty_receipt_amount) <= ctx.deal.data.long_margin,
    ensures
        ({
            let qty = ctx.deal.data.qty_receipt_amount;
            let ds = ctx.snapshot(qty);
            &&& ctx.partial_rejection(now, qty) is None
            &&& ctx.rejection(now) is None
            &&& ctx.partial_effects(qty).actions == ctx.exchange(qty)
            &&& ctx.full_actions() == ctx.exchange(qty) + leftover(
                ds,
                Side::Long,
                (ctx.long_vault_balance - ctx.pay_amount(qty)) as u64,
            ) + leftover(ds, Side::Short, ctx.short_vault_balance)
            &&& ctx.delivered(qty).deal.data.is_settled
            &&& ctx.delivered(qty).deal.data.qty_receipt_amount == 0
            &&& ctx.settled().deal.data.is_settled
        }),
{
}

/// Whenever a partial settlement of the whole open quantity succeeds, a full
/// settlement of the same deal succeeds too.
pub proof fn lemma_partial_of_everything_implies_full(ctx: SettlePhysical, now: i64)
    requires
        ctx.partial_rejection(now, ctx.deal.data.qty_receipt_amount) is None,
    ensures
        ctx.rejection(now) is None,
{
}

/// A frozen deal takes no deposit.
pub proof fn lemma_frozen_deal_blocks_deposit(ctx: DepositMargin, side: Side, amount: u64)
    requires
        ctx.deal.data.is_frozen,
        amount > 0,
    ensures
        ctx.rejection(side, amount) == Some(ErrorCode::DealFrozen),
{
}

/// A frozen deal takes no movement from or into a pool, whichever pool it
/// is and whoever asks.
pub proof fn lemma_frozen_deal_blocks_pool_moves(
    to_deal: CmMoveToDeal,
    from_deal: CmMoveFromDeal,
    side: Side,
    amount: u64,
)
    requires
        amount > 0,
    ensures
        to_deal.deal.data.is_frozen ==> to_deal.rejection(side, amount) == Some(
            ErrorCode::DealFrozen,
        ),
        from_deal.deal.data.is_frozen ==> from_deal.rejection(side, amount) == Some(
            ErrorCode::DealFrozen,
        ),
{
}

/// A frozen deal does not settle: not in cash on its own market, and not by
/// full or partial delivery.
pub proof fn lemma_frozen_deal_blocks_settlement(
    cash: SettleCash,
    physical: SettlePhysical,
    now: i64,
    amount_receipt: u64,
)
    ensures
        cash.deal.data.is_frozen && cash.deal.data.market == cash.market.key ==> cash.rejection(
            now,
        ) == Some(ErrorCode::DealFrozen),
        physical.deal.data.is_frozen ==> physical.rejection(now) == Some(ErrorCode::DealFrozen),
        physical.deal.data.is_frozen ==> physical.partial_rejection(now, amount_receipt) == Some(
            ErrorCode::DealFrozen,
        ),
{
}

/// A frozen deal is not parked from and not returned to: the strategy
/// operator of its market is refused with `DealFrozen`.
pub proof fn lemma_frozen_deal_blocks_parking(ctx: YieldPark)
    requires
        ctx.deal.data.is_frozen,
        ctx.deal.data.market == ctx.market.key,
        ctx.operator == ctx.market.data.strategy_operator,
    ensures
        ctx.rejection() == Some(ErrorCode::DealFrozen),
{
}

} // verus!
