//! The persisted records: markets, warehouses, deals and cross-margin pools,
//! and the immutable snapshots that settlement computes on.

use vstd::prelude::*;
use crate::keys::Pubkey;
use crate::types::{SettlementKind, Side, MAX_COLLATERALS, MAX_FEE_BPS};

verus! {

/// A persisted record together with the key under which it is stored.
#[derive(Debug, PartialEq, Eq)]
pub struct Account<T> {
    pub key: Pubkey,
    pub data: T,
}

impl<T: Copy> Clone for Account<T> {
    fn clone(&self) -> (copy: Self)
        ensures
            copy == *self,
    {
        *self
    }
}

impl<T: Copy> Copy for Account<T> {

}

/// Configuration and oracle state of one market.
#[derive(Clone, Copy, Debug, PartialEq, Eq)]
pub struct Market {
    pub version: u8,
    pub authority: Pubkey,
    pub governance_authority: Pubkey,
    pub quote_mint: Pubkey,
    pub receipt_mint: Pubkey,
    pub oracle_authority: Pubkey,
    pub fee_bps: u16,
    pub is_paused: bool,
    pub last_price: u64,
    pub price_exponent: i32,
    pub settle_ts: i64,
    pub base_initial_margin_bps: u16,
    pub maintenance_margin_bps: u16,
    pub vol_multiplier_bps: u16,
    pub last_vol_bps: u16,
    pub allowed_collaterals: [Pubkey; 4],
    pub allowed_count: u8,
    pub strategy_operator: Pubkey,
}

impl Market {
    /// The additional collateral assets, in the order of their slots.
    pub open spec fn allowed_list(self) -> Seq<Pubkey> {
        self.allowed_collaterals@.take(self.allowed_count as int)
    }

    /// The additional collateral assets as a set.
    pub open spec fn allowed_set(self) -> Set<Pubkey> {
        self.allowed_list().to_set()
    }

    /// Whether deals on this market may be collateralised in `mint`: the
    /// market's own collateral asset always is, the listed ones are too.
    pub open spec fn allows(self, mint: Pubkey) -> bool {
        mint == self.quote_mint || self.allowed_list().contains(mint)
    }

    /// Whether `who` may administer the market.
    pub open spec fn is_admin(self, who: Pubkey) -> bool {
        who == self.authority || who == self.governance_authority
    }

    /// Whether `who` may post a price.
    pub open spec fn may_post_price(self, who: Pubkey) -> bool {
        who == self.oracle_authority || who == self.authority || who
            == self.governance_authority
    }

    /// The market's invariant: the fee is at most 10%, the collateral list
    /// is within its capacity and names no asset twice.
    pub open spec fn wf(self) -> bool {
        &&& self.fee_bps <= MAX_FEE_BPS
        &&& self.allowed_count as int <= MAX_COLLATERALS as int
        &&& self.allowed_list().no_duplicates()
    }
}

impl Market {
    /// Whether the market's invariant holds of this record.
    pub fn is_valid(&self) -> (valid: bool)
        ensures
            valid == self.wf(),
    {
        if self.fee_bps > MAX_FEE_BPS {
            return false;
        }
        if self.allowed_count as usize > MAX_COLLATERALS {
            return false;
        }
        let count: usize = self.allowed_count as usize;
        let mut a: usize = 0;
        while a < count
            invariant
                a <= count,
                count == self.allowed_count,
                count <= 4,
                forall|i: int, j: int|
                    0 <= i < a && 0 <= j < count && i != j ==> self.allowed_list()[i]
                        != self.allowed_list()[j],
            decreases count - a,
        {
            let mut b: usize = 0;
            while b < count
                invariant
                    a < count,
                    b <= count,
                    count == self.allowed_count,
                    count <= 4,
                    forall|j: int|
                        0 <= j < b && j != a ==> self.allowed_list()[a as int]
                            != self.allowed_list()[j],
                decreases count - b,
            {
                if b != a && self.allowed_collaterals[a] == self.allowed_collaterals[b] {
                    assert(self.allowed_list()[a as int] == self.allowed_list()[b as int]);
                    return false;
                }
                b += 1;
            }
            a += 1;
        }
        true
    }
}

/// A certified issuer of one market's receipt asset.
#[derive(Clone, Copy, Debug, PartialEq, Eq)]
pub struct Warehouse {
    pub market: Pubkey,
    pub authority: Pubkey,
    pub receipt_mint: Pubkey,
    pub bump: u8,
}

/// One bilateral forward contract.
#[derive(Clone, Copy, Debug, PartialEq, Eq)]
pub struct Deal {
    pub version: u8,
    pub deal_version: u8,
    pub market: Pubkey,
    pub deal_id: u64,
    pub long: Pubkey,
    pub short: Pubkey,
    pub quote_mint: Pubkey,
    pub receipt_mint: Pubkey,
    pub strike_price: u64,
    pub price_exponent: i32,
    pub qty_receipt_amount: u64,
    pub settle_ts: i64,
    pub settlement_kind: SettlementKind,
    pub long_margin: u64,
    pub short_margin: u64,
    pub fee_bps: u16,
    pub is_settled: bool,
    pub is_frozen: bool,
    pub bump: u8,
    pub vault_bump: u8,
}

impl Deal {
    /// The deal's invariant: its fee was copied from a valid market, and
    /// while it is not settled some quantity is still open.
    pub open spec fn wf(self) -> bool {
        &&& self.fee_bps <= MAX_FEE_BPS
        &&& !self.is_settled ==> self.qty_receipt_amount > 0
    }

    /// The party on `side`.
    pub open spec fn spec_party(&self, side: Side) -> Pubkey {
        match side {
            Side::Long => self.long,
            Side::Short => self.short,
        }
    }

    /// The recorded margin of `side`.
    pub open spec fn spec_margin(&self, side: Side) -> u64 {
        match side {
            Side::Long => self.long_margin,
            Side::Short => self.short_margin,
        }
    }

    /// The deal with the recorded margin of `side` replaced by `margin`.
    pub open spec fn spec_with_margin(self, side: Side, margin: u64) -> Deal {
        match side {
            Side::Long => Deal { long_margin: margin, ..self },
            Side::Short => Deal { short_margin: margin, ..self },
        }
    }

    #[verifier::when_used_as_spec(spec_party)]
    pub fn party(&self, side: Side) -> (who: Pubkey)
        ensures
            who == self.spec_party(side),
    {
        match side {
            Side::Long => self.long,
            Side::Short => self.short,
        }
    }

    #[verifier::when_used_as_spec(spec_margin)]
    pub fn margin(&self, side: Side) -> (amount: u64)
        ensures
            amount == self.spec_margin(side),
    {
        match side {
            Side::Long => self.long_margin,
            Side::Short => self.short_margin,
        }
    }

    /// Records `margin` as the margin of `side`; nothing else changes.
    pub fn set_margin(&mut self, side: Side, margin: u64)
        ensures
            *final(self) == old(self).spec_with_margin(side, margin),
    {
        match side {
            Side::Long => {
                self.long_margin = margin;
            },
            Side::Short => {
                self.short_margin = margin;
            },
        }
    }
}

/// A pooled collateral vault of one owner on one market.
#[derive(Clone, Copy, Debug, PartialEq, Eq)]
pub struct CrossMargin {
    pub market: Pubkey,
    pub owner: Pubkey,
    pub quote_mint: Pubkey,
    pub vault_bump: u8,
}

/// What settlement reads of a deal, captured before anything is changed.
#[derive(Clone, Copy, Debug, PartialEq, Eq)]
pub struct DealSnapshot {
    pub deal: Pubkey,
    pub market: Pubkey,
    pub long: Pubkey,
    pub short: Pubkey,
    pub quote_mint: Pubkey,
    pub receipt_mint: Pubkey,
    pub strike_price: u64,
    pub price_exponent: i32,
    pub qty_receipt_amount: u64,
    pub fee_bps: u16,
    pub vault_bump: u8,
}

impl DealSnapshot {
    /// The party on `side`.
    pub open spec fn spec_party(&self, side: Side) -> Pubkey {
        match side {
            Side::Long => self.long,
            Side::Short => self.short,
        }
    }

    #[verifier::when_used_as_spec(spec_party)]
    pub fn party(&self, side: Side) -> (who: Pubkey)
        ensures
            who == self.spec_party(side),
    {
        match side {
            Side::Long => self.long,
            Side::Short => self.short,
        }
    }

    pub open spec fn spec_from(d: Account<Deal>) -> DealSnapshot {
        DealSnapshot {
            deal: d.key,
            market: d.data.market,
            long: d.data.long,
            short: d.data.short,
            quote_mint: d.data.quote_mint,
            receipt_mint: d.data.receipt_mint,
            strike_price: d.data.strike_price,
            price_exponent: d.data.price_exponent,
            qty_receipt_amount: d.data.qty_receipt_amount,
            fee_bps: d.data.fee_bps,
            vault_bump: d.data.vault_bump,
        }
    }

    /// The snapshot of `d`.
    pub fn from(d: &Account<Deal>) -> (snapshot: DealSnapshot)
        ensures
            snapshot == DealSnapshot::spec_from(*d),
    {
        DealSnapshot {
            deal: d.key,
            market: d.data.market,
            long: d.data.long,
            short: d.data.short,
            quote_mint: d.data.quote_mint,
            receipt_mint: d.data.receipt_mint,
            strike_price: d.data.strike_price,
            price_exponent: d.data.price_exponent,
            qty_receipt_amount: d.data.qty_receipt_amount,
            fee_bps: d.data.fee_bps,
            vault_bump: d.data.vault_bump,
        }
    }
}

/// What margining and settlement read of a market.
#[derive(Clone, Copy, Debug, PartialEq, Eq)]
pub struct MarketSnapshot {
    pub last_price: u64,
    pub price_exponent: i32,
    pub base_initial_margin_bps: u16,
    pub maintenance_margin_bps: u16,
    pub vol_multiplier_bps: u16,
    pub last_vol_bps: u16,
}

impl MarketSnapshot {
    pub open spec fn spec_from(m: Account<Market>) -> MarketSnapshot {
        MarketSnapshot {
            last_price: m.data.last_price,
            price_exponent: m.data.price_exponent,
            base_initial_margin_bps: m.data.base_initial_margin_bps,
            maintenance_margin_bps: m.data.maintenance_margin_bps,
            vol_multiplier_bps: m.data.vol_multiplier_bps,
            last_vol_bps: m.data.last_vol_bps,
        }
    }

    /// The snapshot of `m`.
    pub fn from(m: &Account<Market>) -> (snapshot: MarketSnapshot)
        ensures
            snapshot == MarketSnapshot::spec_from(*m),
    {
        MarketSnapshot {
            last_price: m.data.last_price,
            price_exponent: m.data.price_exponent,
            base_initial_margin_bps: m.data.base_initial_margin_bps,
            maintenance_margin_bps: m.data.maintenance_margin_bps,
            vol_multiplier_bps: m.data.vol_multiplier_bps,
            last_vol_bps: m.data.last_vol_bps,
        }
    }
}

} // verus!
