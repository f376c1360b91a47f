//! The warehouse registry: certified issuers of a market's receipt asset.

use vstd::prelude::*;
use crate::events::{
    Effects, EffectsView, Event, ReceiptBurned, ReceiptMinted, WarehouseInitialized,
};
use crate::keys::Pubkey;
use crate::ledger::{Authority, LedgerAccount, LedgerAction};
use crate::state::{Account, Market, Warehouse};
use crate::types::ErrorCode;

verus! {

/// What `init_warehouse` works on: the warehouse's signing authority, the
/// market with its authority and assets as the caller names them, and the
/// record that will hold the warehouse.
#[derive(Clone, Copy, Debug, PartialEq, Eq)]
pub struct InitWarehouse {
    pub warehouse_authority: Pubkey,
    pub market: Account<Market>,
    pub authority: Pubkey,
    pub quote_mint: Pubkey,
    pub receipt_mint: Pubkey,
    pub warehouse: Account<Warehouse>,
    pub receipt_mint_auth_bump: u8,
}

impl InitWarehouse {
    /// Whether the receipt asset, the collateral asset and the authority
    /// that the caller names are the market's.
    pub open spec fn matches_market(self) -> bool {
        &&& self.market.data.receipt_mint == self.receipt_mint
        &&& self.market.data.quote_mint == self.quote_mint
        &&& self.market.data.authority == self.authority
    }

    /// The warehouse that `init_warehouse` records.
    pub open spec fn created(self) -> Warehouse {
        Warehouse {
            market: self.market.key,
            authority: self.warehouse_authority,
            receipt_mint: self.receipt_mint,
            bump: self.receipt_mint_auth_bump,
        }
    }

    /// What a successful certification asks for: the right to issue the
    /// receipt asset passes from the warehouse authority to the warehouse
    /// record.
    pub open spec fn effects(self) -> EffectsView {
        EffectsView {
            actions: seq![
                LedgerAction::SetMintAuthority {
                    mint: self.receipt_mint,
                    current_authority: self.warehouse_authority,
                    new_authority: Authority::Record {
                        key: self.warehouse.key,
                        bump: self.receipt_mint_auth_bump,
                    },
                },
            ],
            event: Some(
                Event::WarehouseInitialized(
                    WarehouseInitialized {
                        market: self.market.key,
                        warehouse: self.warehouse.key,
                        warehouse_authority: self.warehouse_authority,
                        receipt_mint: self.receipt_mint,
                    },
                ),
            ),
        }
    }
}

/// Certifies a warehouse for a market and hands it the right to issue the
/// market's receipt asset.
///
/// Fails with `ConstraintMismatch` exactly when the assets or the authority
/// that the caller names are not the market's.
pub fn init_warehouse(ctx: &mut InitWarehouse) -> (r: Result<Effects, ErrorCode>)
    ensures
        match r {
            Ok(effects) => {
                &&& old(ctx).matches_market()
                &&& *final(ctx) == (InitWarehouse {
                    warehouse: Account { key: old(ctx).warehouse.key, data: old(ctx).created() },
                    ..*old(ctx)
                })
                &&& effects@ == old(ctx).effects()
            },
            Err(e) => {
                &&& e == ErrorCode::ConstraintMismatch
                &&& !old(ctx).matches_market()
                &&& *final(ctx) == *old(ctx)
            },
        },
{
    if ctx.market.data.receipt_mint != ctx.receipt_mint {
        return Err(ErrorCode::ConstraintMismatch);
    }
    if ctx.market.data.quote_mint != ctx.quote_mint {
        return Err(ErrorCode::ConstraintMismatch);
    }
    if ctx.market.data.authority != ctx.authority {
        return Err(ErrorCode::ConstraintMismatch);
    }
    ctx.warehouse.data = Warehouse {
        market: ctx.market.key,
        authority: ctx.warehouse_authority,
        receipt_mint: ctx.receipt_mint,
        bump: ctx.receipt_mint_auth_bump,
    };
    let action = LedgerAction::SetMintAuthority {
        mint: ctx.receipt_mint,
        current_authority: ctx.warehouse_authority,
        new_authority: Authority::Record {
            key: ctx.warehouse.key,
            bump: ctx.receipt_mint_auth_bump,
        },
    };
    let event = Event::WarehouseInitialized(
        WarehouseInitialized {
            market: ctx.market.key,
            warehouse: ctx.warehouse.key,
            warehouse_authority: ctx.warehouse_authority,
            receipt_mint: ctx.receipt_mint,
        },
    );
    Ok(Effects::one_action(action, event))
}

/// What `mint_receipt` works on: the warehouse, the market and receipt
/// asset as the caller names them, the authority that signed, and the party
/// that receives the receipts.
#[derive(Clone, Copy, Debug, PartialEq, Eq)]
pub struct MintReceipt {
    pub warehouse: Account<Warehouse>,
    pub market: Pubkey,
    pub receipt_mint: Pubkey,
    pub warehouse_authority: Pubkey,
    pub to: Pubkey,
}

impl MintReceipt {
    /// Why `mint_receipt` refuses, if it does: the warehouse is of another
    /// market, the signer is not its authority, or it issues another asset.
    pub open spec fn rejection(self) -> Option<ErrorCode> {
        if self.warehouse.data.market != self.market {
            Some(ErrorCode::ConstraintMismatch)
        } else if self.warehouse.data.authority != self.warehouse_authority {
            Some(ErrorCode::Unauthorized)
        } else if self.warehouse.data.receipt_mint != self.receipt_mint {
            Some(ErrorCode::ConstraintMismatch)
        } else {
            None
        }
    }

    /// What a successful issue of `amount` receipts asks for.
    pub open spec fn effects(self, amount: u64) -> EffectsView {
        EffectsView {
            actions: seq![
                LedgerAction::MintTo {
                    mint: self.receipt_mint,
                    to: LedgerAccount::Wallet { owner: self.to, mint: self.receipt_mint },
                    authority: Authority::Record {
                        key: self.warehouse.key,
                        bump: self.warehouse.data.bump,
                    },
                    amount,
                },
            ],
            event: Some(
                Event::ReceiptMinted(
                    ReceiptMinted { warehouse: self.warehouse.key, to: self.to, amount },
                ),
            ),
        }
    }
}

/// Issues `amount` receipts to `ctx.to`; only the warehouse's own authority
/// may, and only of the warehouse's own asset on its own market.
pub fn mint_receipt(ctx: &MintReceipt, amount: u64) -> (r: Result<Effects, ErrorCode>)
    ensures
        match r {
            Ok(effects) => ctx.rejection() is None && effects@ == ctx.effects(amount),
            Err(e) => ctx.rejection() == Some(e),
        },
{
    if ctx.warehouse.data.market != ctx.market {
        return Err(ErrorCode::ConstraintMismatch);
    }
    if ctx.warehouse.data.authority != ctx.warehouse_authority {
        return Err(ErrorCode::Unauthorized);
    }
    if ctx.warehouse.data.receipt_mint != ctx.receipt_mint {
        return Err(ErrorCode::ConstraintMismatch);
    }
    let action = LedgerAction::MintTo {
        mint: ctx.receipt_mint,
        to: LedgerAccount::Wallet { owner: ctx.to, mint: ctx.receipt_mint },
        authority: Authority::Record { key: ctx.warehouse.key, bump: ctx.warehouse.data.bump },
        amount,
    };
    let event = Event::ReceiptMinted(
        ReceiptMinted { warehouse: ctx.warehouse.key, to: ctx.to, amount },
    );
    Ok(Effects::one_action(action, event))
}

/// What `burn_receipt` works on: the owner that signed and the receipt
/// asset.
#[derive(Clone, Copy, Debug, PartialEq, Eq)]
pub struct BurnReceipt {
    pub owner: Pubkey,
    pub receipt_mint: Pubkey,
}

impl BurnReceipt {
    /// What the redemption of `amount` receipts asks for.
    pub open spec fn effects(self, amount: u64) -> EffectsView {
        EffectsView {
            actions: seq![
                LedgerAction::Burn {
                    mint: self.receipt_mint,
                    from: LedgerAccount::Wallet { owner: self.owner, mint: self.receipt_mint },
                    authority: Authority::Signer { key: self.owner },
                    amount,
                },
            ],
            event: Some(Event::ReceiptBurned(ReceiptBurned { owner: self.owner, amount })),
        }
    }
}

/// Redeems `amount` receipts out of the owner's own balance.
pub fn burn_receipt(ctx: &BurnReceipt, amount: u64) -> (r: Result<Effects, ErrorCode>)
    ensures
        r matches Ok(effects) && effects@ == ctx.effects(amount),
{
    let action = LedgerAction::Burn {
        mint: ctx.receipt_mint,
        from: LedgerAccount::Wallet { owner: ctx.owner, mint: ctx.receipt_mint },
        authority: Authority::Signer { key: ctx.owner },
        amount,
    };
    let event = Event::ReceiptBurned(ReceiptBurned { owner: ctx.owner, amount });
    Ok(Effects::one_action(action, event))
}

} // verus!
