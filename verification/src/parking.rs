//! Yield parking: the market's strategy operator moves idle margin of a deal
//! into the deal's strategy vault and back, while the deal is neither frozen
//! nor settled.
//!
//! The engine keeps no record of what is parked: a deal's recorded margin
//! does not change, only what its vault holds.

use vstd::prelude::*;
use crate::events::{Effects, EffectsView, Event, YieldParked, YieldUnparked};
use crate::keys::Pubkey;
use crate::ledger::{transfer_signed, Authority, LedgerAccount, LedgerAction};
use crate::market::only_strategy_operator;
use crate::state::{Account, Deal, Market};
use crate::types::{ErrorCode, Side};

verus! {

/// What the two parking operations work on: the operator that signed, the
/// market and one of its deals.
#[derive(Clone, Copy, Debug, PartialEq, Eq)]
pub struct YieldPark {
    pub operator: Pubkey,
    pub market: Account<Market>,
    pub deal: Account<Deal>,
}

impl YieldPark {
    /// Why a parking operation is refused, if it is: the deal is not one of
    /// this market, the signer is not the market's strategy operator, or
    /// the deal is frozen or settled.
    pub open spec fn rejection(self) -> Option<ErrorCode> {
        if self.deal.data.market != self.market.key {
            Some(ErrorCode::ConstraintMismatch)
        } else if self.operator != self.market.data.strategy_operator {
            Some(ErrorCode::Unauthorized)
        } else if self.deal.data.is_frozen {
            Some(ErrorCode::DealFrozen)
        } else if self.deal.data.is_settled {
            Some(ErrorCode::AlreadySettled)
        } else {
            None
        }
    }

    /// The margin vault of `side`.
    pub open spec fn vault(self, side: Side) -> LedgerAccount {
        LedgerAccount::MarginVault { deal: self.deal.key, side }
    }

    /// The deal's strategy vault.
    pub open spec fn strategy_vault(self) -> LedgerAccount {
        LedgerAccount::StrategyVault { deal: self.deal.key }
    }

    /// The deal's signing capability over its vaults.
    pub open spec fn authority(self) -> Authority {
        Authority::Record { key: self.deal.key, bump: self.deal.data.vault_bump }
    }
}

/// The checks that the two parking operations share.
pub fn check_parking(ctx: &YieldPark) -> (r: Result<(), ErrorCode>)
    ensures
        match r {
            Ok(_) => ctx.rejection() is None,
            Err(e) => ctx.rejection() == Some(e),
        },
{
    if ctx.deal.data.market != ctx.market.key {
        return Err(ErrorCode::ConstraintMismatch);
    }
    match only_strategy_operator(&ctx.market.data, &ctx.operator) {
        Ok(_) => {},
        Err(e) => {
            return Err(e);
        },
    }
    if ctx.deal.data.is_frozen {
        return Err(ErrorCode::DealFrozen);
    }
    if ctx.deal.data.is_settled {
        return Err(ErrorCode::AlreadySettled);
    }
    Ok(())
}

/// Parks `amount` of the margin of `side` in the deal's strategy vault.
pub fn yield_park_from_deal(ctx: &YieldPark, side: Side, amount: u64) -> (r: Result<
    Effects,
    ErrorCode,
>)
    ensures
        match r {
            Ok(effects) => ctx.rejection() is None && effects@ == (EffectsView {
                actions: seq![
                    LedgerAction::Transfer {
                        from: ctx.vault(side),
                        to: ctx.strategy_vault(),
                        authority: ctx.authority(),
                        amount,
                    },
                ],
                event: Some(
                    Event::YieldParked(
                        YieldParked { deal: ctx.deal.key, side: side.spec_code(), amount },
                    ),
                ),
            }),
            Err(e) => ctx.rejection() == Some(e),
        },
{
    match check_parking(ctx) {
        Ok(_) => {},
        Err(e) => {
            return Err(e);
        },
    }
    let action = transfer_signed(
        LedgerAccount::MarginVault { deal: ctx.deal.key, side },
        LedgerAccount::StrategyVault { deal: ctx.deal.key },
        &ctx.deal.key,
        ctx.deal.data.vault_bump,
        amount,
    );
    let event = Event::YieldParked(YieldParked { deal: ctx.deal.key, side: side.code(), amount });
    Ok(Effects::one_action(action, event))
}

/// Returns `amount` from the deal's strategy vault to the margin of `side`.
pub fn yield_unpark_to_deal(ctx: &YieldPark, side: Side, amount: u64) -> (r: Result<
    Effects,
    ErrorCode,
>)
    ensures
        match r {
            Ok(effects) => ctx.rejection() is None && effects@ == (EffectsView {
                actions: seq![
                    LedgerAction::Transfer {
                        from: ctx.strategy_vault(),
                        to: ctx.vault(side),
                        authority: ctx.authority(),
                        amount,
                    },
                ],
                event: Some(
                    Event::YieldUnparked(
                        YieldUnparked { deal: ctx.deal.key, side: side.spec_code(), amount },
                    ),
                ),
            }),
            Err(e) => ctx.rejection() == Some(e),
        },
{
    match check_parking(ctx) {
        Ok(_) => {},
        Err(e) => {
            return Err(e);
        },
    }
    let action = transfer_signed(
        LedgerAccount::StrategyVault { deal: ctx.deal.key },
        LedgerAccount::MarginVault { deal: ctx.deal.key, side },
        &ctx.deal.key,
        ctx.deal.data.vault_bump,
        amount,
    );
    let event = Event::YieldUnparked(
        YieldUnparked { deal: ctx.deal.key, side: side.code(), amount },
    );
    Ok(Effects::one_action(action, event))
}

} // verus!
