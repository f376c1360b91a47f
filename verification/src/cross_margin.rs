//! Cross-margin pools: one pooled vault per market, owner and collateral
//! asset, from which the owner funds any of their deals and into which they
//! draw margin back.

use vstd::prelude::*;
use crate::deal::{
    check_open_to_margin, deal_closed_to_margin, margins_mirror_ledger, only_party,
};
use crate::events::{
    CrossMarginCreated, CrossMarginDeposited, CrossMarginToDeal, CrossMarginWithdrawn,
    DealToCrossMargin, Effects, EffectsView, Event,
};
use crate::keys::Pubkey;
use crate::ledger::{
    apply_all, balance_of, lemma_apply_all_changes_by_net_flow, lemma_net_flow_one,
    transfer_by_signer, transfer_signed, Authority, LedgerAccount, LedgerAction,
};
use crate::state::{Account, CrossMargin, Deal};
use crate::types::{ErrorCode, Side};

verus! {

/// What `cm_create` works on: the owner, the market, the collateral asset,
/// the record that will hold the pool, and the address of its vault.
#[derive(Clone, Copy, Debug, PartialEq, Eq)]
pub struct CmCreate {
    pub owner: Pubkey,
    pub market: Pubkey,
    pub quote_mint: Pubkey,
    pub cross_margin: Account<CrossMargin>,
    pub cm_vault_ata: Pubkey,
    pub vault_bump: u8,
}

impl CmCreate {
    /// The pool that `cm_create` records.
    pub open spec fn created(self) -> CrossMargin {
        CrossMargin {
            market: self.market,
            owner: self.owner,
            quote_mint: self.quote_mint,
            vault_bump: self.vault_bump,
        }
    }
}

/// Creates the pool of `ctx.owner` for one market and one collateral asset.
pub fn cm_create(ctx: &mut CmCreate) -> (r: Result<Effects, ErrorCode>)
    ensures
        r matches Ok(effects) && effects@ == (EffectsView {
            actions: Seq::empty(),
            event: Some(
                Event::CrossMarginCreated(
                    CrossMarginCreated {
                        market: old(ctx).market,
                        owner: old(ctx).owner,
                        quote_mint: old(ctx).quote_mint,
                        vault: old(ctx).cm_vault_ata,
                    },
                ),
            ),
        }),
        *final(ctx) == (CmCreate {
            cross_margin: Account { key: old(ctx).cross_margin.key, data: old(ctx).created() },
            ..*old(ctx)
        }),
{
    ctx.cross_margin.data = CrossMargin {
        market: ctx.market,
        owner: ctx.owner,
        quote_mint: ctx.quote_mint,
        vault_bump: ctx.vault_bump,
    };
    Ok(
        Effects::event_only(
            Event::CrossMarginCreated(
                CrossMarginCreated {
                    market: ctx.market,
                    owner: ctx.owner,
                    quote_mint: ctx.quote_mint,
                    vault: ctx.cm_vault_ata,
                },
            ),
        ),
    )
}

/// Why a pool does not serve `owner` on `market` in `quote_mint`, if it
/// does not: it belongs to another market or asset, or to another owner.
pub open spec fn pool_rejection(
    pool: CrossMargin,
    owner: Pubkey,
    market: Pubkey,
    quote_mint: Pubkey,
) -> Option<ErrorCode> {
    if pool.market != market || pool.quote_mint != quote_mint {
        Some(ErrorCode::ConstraintMismatch)
    } else if pool.owner != owner {
        Some(ErrorCode::Unauthorized)
    } else {
        None
    }
}

/// The checks that every operation on an existing pool makes first.
pub fn check_pool(pool: &CrossMargin, owner: &Pubkey, market: &Pubkey, quote_mint: &Pubkey) -> (r:
    Result<(), ErrorCode>)
    ensures
        match r {
            Ok(_) => pool_rejection(*pool, *owner, *market, *quote_mint) is None,
            Err(e) => pool_rejection(*pool, *owner, *market, *quote_mint) == Some(e),
        },
{
    if pool.market != *market || pool.quote_mint != *quote_mint {
        return Err(ErrorCode::ConstraintMismatch);
    }
    if pool.owner != *owner {
        return Err(ErrorCode::Unauthorized);
    }
    Ok(())
}

/// The owner's own balance of the pool's collateral asset.
pub open spec fn owner_wallet(pool: CrossMargin) -> LedgerAccount {
    LedgerAccount::Wallet { owner: pool.owner, mint: pool.quote_mint }
}

/// The pooled vault of the pool stored under `key`.
pub open spec fn pool_vault(key: Pubkey) -> LedgerAccount {
    LedgerAccount::CrossMarginVault { cross_margin: key }
}

/// What `cm_deposit` works on.
#[derive(Clone, Copy, Debug, PartialEq, Eq)]
pub struct CmDeposit {
    pub owner: Pubkey,
    pub market: Pubkey,
    pub quote_mint: Pubkey,
    pub cross_margin: Account<CrossMargin>,
}

impl CmDeposit {
    /// Why `cm_deposit` refuses, if it does.
    pub open spec fn rejection(self, amount: u64) -> Option<ErrorCode> {
        if pool_rejection(self.cross_margin.data, self.owner, self.market, self.quote_mint)
            is Some {
            pool_rejection(self.cross_margin.data, self.owner, self.market, self.quote_mint)
        } else if amount == 0 {
            Some(ErrorCode::ZeroAmount)
        } else {
            None
        }
    }

    /// What a successful deposit asks for.
    pub open spec fn effects(self, amount: u64) -> EffectsView {
        EffectsView {
            actions: seq![
                LedgerAction::Transfer {
                    from: owner_wallet(self.cross_margin.data),
                    to: pool_vault(self.cross_margin.key),
                    authority: Authority::Signer { key: self.owner },
                    amount,
                },
            ],
            event: Some(
                Event::CrossMarginDeposited(
                    CrossMarginDeposited {
                        market: self.cross_margin.data.market,
                        owner: self.owner,
                        amount,
                    },
                ),
            ),
        }
    }
}

/// Pays `amount` from the owner's own balance into the pool.
pub fn cm_deposit(ctx: &CmDeposit, amount: u64) -> (r: Result<Effects, ErrorCode>)
    ensures
        match r {
            Ok(effects) => ctx.rejection(amount) is None && effects@ == ctx.effects(amount),
            Err(e) => ctx.rejection(amount) == Some(e),
        },
{
    match check_pool(&ctx.cross_margin.data, &ctx.owner, &ctx.market, &ctx.quote_mint) {
        Ok(_) => {},
        Err(e) => {
            return Err(e);
        },
    }
    if amount == 0 {
        return Err(ErrorCode::ZeroAmount);
    }
    let action = transfer_by_signer(
        LedgerAccount::Wallet {
            owner: ctx.cross_margin.data.owner,
            mint: ctx.cross_margin.data.quote_mint,
        },
        LedgerAccount::CrossMarginVault { cross_margin: ctx.cross_margin.key },
        &ctx.owner,
        amount,
    );
    let event = Event::CrossMarginDeposited(
        CrossMarginDeposited { market: ctx.cross_margin.data.market, owner: ctx.owner, amount },
    );
    Ok(Effects::one_action(action, event))
}

/// What `cm_withdraw` works on.
#[derive(Clone, Copy, Debug, PartialEq, Eq)]
pub struct CmWithdraw {
    pub owner: Pubkey,
    pub market: Pubkey,
    pub quote_mint: Pubkey,
    pub cross_margin: Account<CrossMargin>,
}

impl CmWithdraw {
    /// Why `cm_withdraw` refuses, if it does. That the pool holds the
    /// amount is for the ledger to enforce.
    pub open spec fn rejection(self, amount: u64) -> Option<ErrorCode> {
        if pool_rejection(self.cross_margin.data, self.owner, self.market, self.quote_mint)
            is Some {
            pool_rejection(self.cross_margin.data, self.owner, self.market, self.quote_mint)
        } else if amount == 0 {
            Some(ErrorCode::ZeroAmount)
        } else {
            None
        }
    }

    /// What a successful withdrawal asks for.
    pub open spec fn effects(self, amount: u64) -> EffectsView {
        EffectsView {
            actions: seq![
                LedgerAction::Transfer {
                    from: pool_vault(self.cross_margin.key),
                    to: owner_wallet(self.cross_margin.data),
                    authority: Authority::Record {
                        key: self.cross_margin.key,
                        bump: self.cross_margin.data.vault_bump,
                    },
                    amount,
                },
            ],
            event: Some(
                Event::CrossMarginWithdrawn(
                    CrossMarginWithdrawn {
                        market: self.cross_margin.data.market,
                        owner: self.owner,
                        amount,
                    },
                ),
            ),
        }
    }
}

/// Pays `amount` out of the pool into the owner's own balance.
pub fn cm_withdraw(ctx: &CmWithdraw, amount: u64) -> (r: Result<Effects, ErrorCode>)
    ensures
        match r {
            Ok(effects) => ctx.rejection(amount) is None && effects@ == ctx.effects(amount),
            Err(e) => ctx.rejection(amount) == Some(e),
        },
{
    match check_pool(&ctx.cross_margin.data, &ctx.owner, &ctx.market, &ctx.quote_mint) {
        Ok(_) => {},
        Err(e) => {
            return Err(e);
        },
    }
    if amount == 0 {
        return Err(ErrorCode::ZeroAmount);
    }
    let action = transfer_signed(
        LedgerAccount::CrossMarginVault { cross_margin: ctx.cross_margin.key },
        LedgerAccount::Wallet {
            owner: ctx.cross_margin.data.owner,
            mint: ctx.cross_margin.data.quote_mint,
        },
        &ctx.cross_margin.key,
        ctx.cross_margin.data.vault_bump,
        amount,
    );
    let event = Event::CrossMarginWithdrawn(
        CrossMarginWithdrawn { market: ctx.cross_margin.data.market, owner: ctx.owner, amount },
    );
    Ok(Effects::one_action(action, event))
}

/// Why a pool and a deal do not go together, if they do not: the pool does
/// not serve the caller, the deal is collateralised in another asset, or it
/// belongs to another market.
pub open spec fn pairing_rejection(
    pool: CrossMargin,
    deal: Deal,
    owner: Pubkey,
    market: Pubkey,
    quote_mint: Pubkey,
) -> Option<ErrorCode> {
    if pool_rejection(pool, owner, market, quote_mint) is Some {
        pool_rejection(pool, owner, market, quote_mint)
    } else if deal.quote_mint != pool.quote_mint || deal.market != market {
        Some(ErrorCode::ConstraintMismatch)
    } else {
        None
    }
}

/// Why no movement of `amount` on `side` passes between the pool and the
/// deal, whichever way it goes: the first that fails of the amount being
/// above zero, the deal being neither frozen nor settled, the pool and the
/// deal going together, and the caller being the party on that side.
pub open spec fn pool_move_rejection(
    pool: CrossMargin,
    deal: Deal,
    owner: Pubkey,
    market: Pubkey,
    quote_mint: Pubkey,
    side: Side,
    amount: u64,
) -> Option<ErrorCode> {
    if deal_closed_to_margin(deal, amount) is Some {
        deal_closed_to_margin(deal, amount)
    } else if pairing_rejection(pool, deal, owner, market, quote_mint) is Some {
        pairing_rejection(pool, deal, owner, market, quote_mint)
    } else if deal.spec_party(side) != owner {
        Some(ErrorCode::Unauthorized)
    } else {
        None
    }
}

/// The checks that both movements between a pool and a deal share.
pub fn check_pool_move(
    pool: &CrossMargin,
    deal: &Deal,
    owner: &Pubkey,
    market: &Pubkey,
    quote_mint: &Pubkey,
    side: Side,
    amount: u64,
) -> (r: Result<(), ErrorCode>)
    ensures
        match r {
            Ok(_) => pool_move_rejection(*pool, *deal, *owner, *market, *quote_mint, side, amount)
                is None,
            Err(e) => pool_move_rejection(*pool, *deal, *owner, *market, *quote_mint, side, amount)
                == Some(e),
        },
{
    match check_open_to_margin(deal, amount) {
        Ok(_) => {},
        Err(e) => {
            return Err(e);
        },
    }
    match check_pool(pool, owner, market, quote_mint) {
        Ok(_) => {},
        Err(e) => {
            return Err(e);
        },
    }
    if deal.quote_mint != pool.quote_mint || deal.market != *market {
        return Err(ErrorCode::ConstraintMismatch);
    }
    only_party(deal, owner, side)
}

/// What `cm_move_to_deal` works on: the owner, the market and collateral
/// asset, the pool, and the deal to fund.
#[derive(Clone, Copy, Debug, PartialEq, Eq)]
pub struct CmMoveToDeal {
    pub owner: Pubkey,
    pub market: Pubkey,
    pub quote_mint: Pubkey,
    pub deal: Account<Deal>,
    pub cross_margin: Account<CrossMargin>,
}

impl CmMoveToDeal {
    /// Why `cm_move_to_deal` refuses, if it does.
    pub open spec fn rejection(self, side: Side, amount: u64) -> Option<ErrorCode> {
        let shared = pool_move_rejection(
            self.cross_margin.data,
            self.deal.data,
            self.owner,
            self.market,
            self.quote_mint,
            side,
            amount,
        );
        if shared is Some {
            shared
        } else if self.deal.data.spec_margin(side) + amount > u64::MAX {
            Some(ErrorCode::MathOverflow)
        } else {
            None
        }
    }

    /// The context after the movement: the recorded margin of `side` grew
    /// by `amount`, nothing else changed.
    pub open spec fn moved(self, side: Side, amount: u64) -> CmMoveToDeal {
        CmMoveToDeal {
            deal: Account {
                key: self.deal.key,
                data: self.deal.data.spec_with_margin(
                    side,
                    (self.deal.data.spec_margin(side) + amount) as u64,
                ),
            },
            ..self
        }
    }

    /// The movement from the pool into the margin vault of `side`.
    pub open spec fn action(self, side: Side, amount: u64) -> LedgerAction {
        LedgerAction::Transfer {
            from: pool_vault(self.cross_margin.key),
            to: LedgerAccount::MarginVault { deal: self.deal.key, side },
            authority: Authority::Record {
                key: self.cross_margin.key,
                bump: self.cross_margin.data.vault_bump,
            },
            amount,
        }
    }

    /// What a successful movement asks for.
    pub open spec fn effects(self, side: Side, amount: u64) -> EffectsView {
        EffectsView {
            actions: seq![self.action(side, amount)],
            event: Some(
                Event::CrossMarginToDeal(
                    CrossMarginToDeal { deal: self.deal.key, side: side.spec_code(), amount },
                ),
            ),
        }
    }
}

/// Moves `amount` from the owner's pool into the margin of `side`.
///
/// Requires an amount above zero, a deal that is neither frozen nor
/// settled, a pool of this owner, market and asset, a deal of the same
/// market and asset, and the owner as the party on `side`; the first of
/// these that fails decides the error. The amount moves from the pooled vault
/// into that side's margin vault, and the recorded margin of that side grows
/// by exactly the amount.
pub fn cm_move_to_deal(ctx: &mut CmMoveToDeal, side: Side, amount: u64) -> (r: Result<
    Effects,
    ErrorCode,
>)
    ensures
        match r {
            Ok(effects) => {
                &&& old(ctx).rejection(side, amount) is None
                &&& *final(ctx) == old(ctx).moved(side, amount)
                &&& effects@ == old(ctx).effects(side, amount)
                &&& margins_mirror_ledger(
                    old(ctx).deal.key,
                    old(ctx).deal.data,
                    final(ctx).deal.data,
                    effects@.actions,
                )
            },
            Err(e) => old(ctx).rejection(side, amount) == Some(e) && *final(ctx) == *old(ctx),
        },
        old(ctx).deal.data.wf() ==> final(ctx).deal.data.wf(),
{
    match check_pool_move(
        &ctx.cross_margin.data,
        &ctx.deal.data,
        &ctx.owner,
        &ctx.market,
        &ctx.quote_mint,
        side,
        amount,
    ) {
        Ok(_) => {},
        Err(e) => {
            return Err(e);
        },
    }
    let margin = match ctx.deal.data.margin(side).checked_add(amount) {
        Some(margin) => margin,
        None => {
            return Err(ErrorCode::MathOverflow);
        },
    };
    let action = transfer_signed(
        LedgerAccount::CrossMarginVault { cross_margin: ctx.cross_margin.key },
        LedgerAccount::MarginVault { deal: ctx.deal.key, side },
        &ctx.cross_margin.key,
        ctx.cross_margin.data.vault_bump,
        amount,
    );
    proof {
        lemma_net_flow_one(
            action,
            LedgerAccount::MarginVault { deal: ctx.deal.key, side: Side::Long },
        );
        lemma_net_flow_one(
            action,
            LedgerAccount::MarginVault { deal: ctx.deal.key, side: Side::Short },
        );
    }
    ctx.deal.data.set_margin(side, margin);
    let event = Event::CrossMarginToDeal(
        CrossMarginToDeal { deal: ctx.deal.key, side: side.code(), amount },
    );
    Ok(Effects::one_action(action, event))
}

/// What `cm_move_from_deal` works on: the owner, the market and collateral
/// asset, the pool, and the deal to draw from.
#[derive(Clone, Copy, Debug, PartialEq, Eq)]
pub struct CmMoveFromDeal {
    pub owner: Pubkey,
    pub market: Pubkey,
    pub quote_mint: Pubkey,
    pub deal: Account<Deal>,
    pub cross_margin: Account<CrossMargin>,
}

impl CmMoveFromDeal {
    /// Why `cm_move_from_deal` refuses, if it does. Drawing more than the
    /// recorded margin is refused as an arithmetic failure.
    pub open spec fn rejection(self, side: Side, amount: u64) -> Option<ErrorCode> {
        let shared = pool_move_rejection(
            self.cross_margin.data,
            self.deal.data,
            self.owner,
            self.market,
            self.quote_mint,
            side,
            amount,
        );
        if shared is Some {
            shared
        } else if self.deal.data.spec_margin(side) < amount {
            Some(ErrorCode::MathOverflow)
        } else {
            None
        }
    }

    /// The context after the movement: the recorded margin of `side` shrank
    /// by `amount`, nothing else changed.
    pub open spec fn moved(self, side: Side, amount: u64) -> CmMoveFromDeal {
        CmMoveFromDeal {
            deal: Account {
                key: self.deal.key,
                data: self.deal.data.spec_with_margin(
                    side,
                    (self.deal.data.spec_margin(side) - amount) as u64,
                ),
            },
            ..self
        }
    }

    /// The movement from the margin vault of `side` into the pool.
    pub open spec fn action(self, side: Side, amount: u64) -> LedgerAction {
        LedgerAction::Transfer {
            from: LedgerAccount::MarginVault { deal: self.deal.key, side },
            to: pool_vault(self.cross_margin.key),
            authority: Authority::Record { key: self.deal.key, bump: self.deal.data.vault_bump },
            amount,
        }
    }

    /// What a successful movement asks for.
    pub open spec fn effects(self, side: Side, amount: u64) -> EffectsView {
        EffectsView {
            actions: seq![self.action(side, amount)],
            event: Some(
                Event::DealToCrossMargin(
                    DealToCrossMargin { deal: self.deal.key, side: side.spec_code(), amount },
                ),
            ),
        }
    }
}

/// Moves `amount` from the margin of `side` back into the owner's pool.
///
/// Requires what `cm_move_to_deal` requires, and a recorded margin on that
/// side of at least the amount. The amount moves from that side's margin
/// vault into the pooled vault, and the recorded margin of that side shrinks
/// by exactly the amount.
pub fn cm_move_from_deal(ctx: &mut CmMoveFromDeal, side: Side, amount: u64) -> (r: Result<
    Effects,
    ErrorCode,
>)
    ensures
        match r {
            Ok(effects) => {
                &&& old(ctx).rejection(side, amount) is None
                &&& *final(ctx) == old(ctx).moved(side, amount)
                &&& effects@ == old(ctx).effects(side, amount)
                &&& margins_mirror_ledger(
                    old(ctx).deal.key,
                    old(ctx).deal.data,
                    final(ctx).deal.data,
                    effects@.actions,
                )
            },
            Err(e) => old(ctx).rejection(side, amount) == Some(e) && *final(ctx) == *old(ctx),
        },
        old(ctx).deal.data.wf() ==> final(ctx).deal.data.wf(),
{
    match check_pool_move(
        &ctx.cross_margin.data,
        &ctx.deal.data,
        &ctx.owner,
        &ctx.market,
        &ctx.quote_mint,
        side,
        amount,
    ) {
        Ok(_) => {},
        Err(e) => {
            return Err(e);
        },
    }
    let margin = match ctx.deal.data.margin(side).checked_sub(amount) {
        Some(margin) => margin,
        None => {
            return Err(ErrorCode::MathOverflow);
        },
    };
    let action = transfer_signed(
        LedgerAccount::MarginVault { deal: ctx.deal.key, side },
        LedgerAccount::CrossMarginVault { cross_margin: ctx.cross_margin.key },
        &ctx.deal.key,
        ctx.deal.data.vault_bump,
        amount,
    );
    proof {
        lemma_net_flow_one(
            action,
            LedgerAccount::MarginVault { deal: ctx.deal.key, side: Side::Long },
        );
        lemma_net_flow_one(
            action,
            LedgerAccount::MarginVault { deal: ctx.deal.key, side: Side::Short },
        );
    }
    ctx.deal.data.set_margin(side, margin);
    let event = Event::DealToCrossMargin(
        DealToCrossMargin { deal: ctx.deal.key, side: side.code(), amount },
    );
    Ok(Effects::one_action(action, event))
}

/// Round trip: moving an amount from a pool into a deal and then the same
/// amount on the same side back into the pool always succeeds, and restores
/// the deal's record and every balance of the ledger, the pool's and the
/// margin vault's among them.
pub proof fn lemma_cm_round_trip(
    to_deal: CmMoveToDeal,
    side: Side,
    amount: u64,
    balances: Map<LedgerAccount, nat>,
)
    requires
        to_deal.rejection(side, amount) is None,
        apply_all(balances, to_deal.effects(side, amount).actions) is Some,
    ensures
        ({
            let funded = to_deal.moved(side, amount);
            let back = CmMoveFromDeal {
                owner: funded.owner,
                market: funded.market,
                quote_mint: funded.quote_mint,
                deal: funded.deal,
                cross_margin: funded.cross_margin,
            };
            let between = apply_all(balances, to_deal.effects(side, amount).actions).unwrap();
            &&& back.rejection(side, amount) is None
            &&& back.moved(side, amount).deal == to_deal.deal
            &&& apply_all(between, back.effects(side, amount).actions) is Some
            &&& forall|account: LedgerAccount|
                balance_of(
                    apply_all(between, back.effects(side, amount).actions).unwrap(),
                    account,
                ) == balance_of(balances, account)
        }),
{
    let funded = to_deal.moved(side, amount);
    let back = CmMoveFromDeal {
        owner: funded.owner,
        market: funded.market,
        quote_mint: funded.quote_mint,
        deal: funded.deal,
        cross_margin: funded.cross_margin,
    };
    let there = to_deal.effects(side, amount).actions;
    let here = back.effects(side, amount).actions;
    let between = apply_all(balances, there).unwrap();
    let vault = LedgerAccount::MarginVault { deal: to_deal.deal.key, side };
    assert(there.drop_last() =~= Seq::<LedgerAction>::empty());
    assert(here.drop_last() =~= Seq::<LedgerAction>::empty());
    assert(apply_all(balances, there.drop_last()) == Some(balances));
    assert(apply_all(between, here.drop_last()) == Some(between));
    assert(there.last() == to_deal.action(side, amount));
    assert(here.last() == back.action(side, amount));
    assert(between == to_deal.action(side, amount).apply(balances));
    assert(balance_of(between, vault) >= amount);
    assert(back.action(side, amount).accepted(between));
    let after = apply_all(between, here).unwrap();
    assert forall|account: LedgerAccount| balance_of(after, account) == balance_of(
        balances,
        account,
    ) by {
        lemma_apply_all_changes_by_net_flow(balances, there, account);
        lemma_apply_all_changes_by_net_flow(between, here, account);
        lemma_net_flow_one(to_deal.action(side, amount), account);
        lemma_net_flow_one(back.action(side, amount), account);
        assert(there =~= seq![to_deal.action(side, amount)]);
        assert(here =~= seq![back.action(side, amount)]);
    }
    assert(back.moved(side, amount).deal.data == to_deal.deal.data);
}

} // verus!
