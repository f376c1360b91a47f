//! The market registry: creation, fees and margin parameters, the list of
//! accepted collateral, pausing, and the posting of prices.

use vstd::prelude::*;
use crate::events::{
    CollateralAdded, CollateralRemoved, Effects, EffectsView, Event, MarketInitialized,
    MarketPaused, MarketUnpaused, PricePosted, YieldOperatorSet,
};
use crate::keys::Pubkey;
use crate::state::{Account, Market};
use crate::types::{ErrorCode, DEFAULT_PRICE_EXPONENT, MAX_COLLATERALS, MAX_FEE_BPS, VERSION};

verus! {

/// Admits the market's authority and its governance authority, nobody else.
pub fn only_admin(market: &Market, signer: &Pubkey) -> (r: Result<(), ErrorCode>)
    ensures
        market.is_admin(*signer) ==> r == Ok::<(), ErrorCode>(()),
        !market.is_admin(*signer) ==> r == Err::<(), ErrorCode>(ErrorCode::Unauthorized),
{
    if *signer == market.authority || *signer == market.governance_authority {
        Ok(())
    } else {
        Err(ErrorCode::Unauthorized)
    }
}

/// Admits the market's strategy operator, nobody else.
pub fn only_strategy_operator(market: &Market, operator: &Pubkey) -> (r: Result<(), ErrorCode>)
    ensures
        *operator == market.strategy_operator ==> r == Ok::<(), ErrorCode>(()),
        *operator != market.strategy_operator ==> r == Err::<(), ErrorCode>(
            ErrorCode::Unauthorized,
        ),
{
    if *operator == market.strategy_operator {
        Ok(())
    } else {
        Err(ErrorCode::Unauthorized)
    }
}

/// The slot of `mint` in the market's collateral list, if it is listed.
pub fn find_collateral(market: &Market, mint: &Pubkey) -> (slot: Option<usize>)
    requires
        market.allowed_count as int <= MAX_COLLATERALS as int,
    ensures
        match slot {
            Some(i) => i < market.allowed_count && market.allowed_list()[i as int] == *mint
                && forall|j: int| 0 <= j < i ==> market.allowed_list()[j] != *mint,
            None => !market.allowed_list().contains(*mint),
        },
{
    let count: usize = market.allowed_count as usize;
    let mut i: usize = 0;
    while i < count
        invariant
            i <= count,
            count == market.allowed_count,
            count <= 4,
            forall|j: int| 0 <= j < i ==> market.allowed_list()[j] != *mint,
        decreases count - i,
    {
        if market.allowed_collaterals[i] == *mint {
            return Some(i);
        }
        i += 1;
    }
    None
}

/// Whether deals on `market` may be collateralised in `mint`.
pub fn is_allowed_collateral(market: &Market, mint: &Pubkey) -> (allowed: bool)
    requires
        market.allowed_count as int <= MAX_COLLATERALS as int,
    ensures
        allowed == market.allows(*mint),
{
    if *mint == market.quote_mint {
        return true;
    }
    find_collateral(market, mint).is_some()
}

/// What `init_market` works on: the creating authority, the two assets,
/// and the record that will hold the market.
#[derive(Clone, Copy, Debug, PartialEq, Eq)]
pub struct InitMarket {
    pub authority: Pubkey,
    pub quote_mint: Pubkey,
    pub receipt_mint: Pubkey,
    pub market: Account<Market>,
}

impl InitMarket {
    /// The market that `init_market` records: not paused, no price posted
    /// yet, six decimal places, no additional collateral, no strategy
    /// operator.
    pub open spec fn created(
        self,
        fee_bps: u16,
        oracle_authority: Pubkey,
        governance_authority: Pubkey,
        base_initial_margin_bps: u16,
        maintenance_margin_bps: u16,
        vol_multiplier_bps: u16,
    ) -> Market {
        Market {
            version: VERSION,
            authority: self.authority,
            governance_authority,
            quote_mint: self.quote_mint,
            receipt_mint: self.receipt_mint,
            oracle_authority,
            fee_bps,
            is_paused: false,
            last_price: 0,
            price_exponent: DEFAULT_PRICE_EXPONENT,
            settle_ts: 0,
            base_initial_margin_bps,
            maintenance_margin_bps,
            vol_multiplier_bps,
            last_vol_bps: 0,
            allowed_collaterals: vstd::array::spec_array_fill_for_copy_type::<Pubkey, 4>(
                Pubkey::zero(),
            ),
            allowed_count: 0,
            strategy_operator: Pubkey::zero(),
        }
    }
}

/// Creates a market. Fails with `FeeTooHigh` exactly when the fee is above
/// 10%.
pub fn init_market(
    ctx: &mut InitMarket,
    fee_bps: u16,
    oracle_authority: Pubkey,
    governance_authority: Pubkey,
    base_initial_margin_bps: u16,
    maintenance_margin_bps: u16,
    vol_multiplier_bps: u16,
) -> (r: Result<Effects, ErrorCode>)
    ensures
        match r {
            Ok(effects) => {
                &&& fee_bps <= MAX_FEE_BPS
                &&& *final(ctx) == (InitMarket {
                    market: Account {
                        key: old(ctx).market.key,
                        data: old(ctx).created(
                            fee_bps,
                            oracle_authority,
                            governance_authority,
                            base_initial_margin_bps,
                            maintenance_margin_bps,
                            vol_multiplier_bps,
                        ),
                    },
                    ..*old(ctx)
                })
                &&& effects@ == (EffectsView {
                    actions: Seq::empty(),
                    event: Some(
                        Event::MarketInitialized(
                            MarketInitialized {
                                market: old(ctx).market.key,
                                authority: old(ctx).authority,
                                governance_authority,
                                quote_mint: old(ctx).quote_mint,
                                receipt_mint: old(ctx).receipt_mint,
                                fee_bps,
                            },
                        ),
                    ),
                })
                &&& final(ctx).market.data.wf()
                &&& final(ctx).market.data.allowed_set() == Set::<Pubkey>::empty()
            },
            Err(e) => {
                &&& e == ErrorCode::FeeTooHigh
                &&& fee_bps > MAX_FEE_BPS
                &&& *final(ctx) == *old(ctx)
            },
        },
{
    if fee_bps > MAX_FEE_BPS {
        return Err(ErrorCode::FeeTooHigh);
    }
    ctx.market.data = Market {
        version: VERSION,
        authority: ctx.authority,
        governance_authority,
        quote_mint: ctx.quote_mint,
        receipt_mint: ctx.receipt_mint,
        oracle_authority,
        fee_bps,
        is_paused: false,
        last_price: 0,
        price_exponent: DEFAULT_PRICE_EXPONENT,
        settle_ts: 0,
        base_initial_margin_bps,
        maintenance_margin_bps,
        vol_multiplier_bps,
        last_vol_bps: 0,
        allowed_collaterals: [Pubkey::default();4],
        allowed_count: 0,
        strategy_operator: Pubkey::default(),
    };
    proof {
        assert(ctx.market.data.allowed_list() =~= Seq::<Pubkey>::empty());
        assert(ctx.market.data.allowed_set() =~= Set::<Pubkey>::empty());
    }
    Ok(
        Effects::event_only(
            Event::MarketInitialized(
                MarketInitialized {
                    market: ctx.market.key,
                    authority: ctx.authority,
                    governance_authority,
                    quote_mint: ctx.quote_mint,
                    receipt_mint: ctx.receipt_mint,
                    fee_bps,
                },
            ),
        ),
    )
}

/// What the administrative operations on a market work on: the signer and
/// the market.
#[derive(Clone, Copy, Debug, PartialEq, Eq)]
pub struct AdminMarketWrite {
    pub signer: Pubkey,
    pub market: Account<Market>,
}

impl AdminMarketWrite {
    /// The context with the market's record replaced by `market`.
    pub open spec fn with_market(self, market: Market) -> AdminMarketWrite {
        AdminMarketWrite { market: Account { key: self.market.key, data: market }, ..self }
    }

    /// The context with the market paused or not, and nothing else changed.
    pub open spec fn with_paused(self, paused: bool) -> AdminMarketWrite {
        self.with_market(Market { is_paused: paused, ..self.market.data })
    }

    /// Why a change to the collateral list is refused before the list is
    /// looked at, if it is: the signer is no administrator, or the market is
    /// paused.
    pub open spec fn list_locked(self) -> Option<ErrorCode> {
        if !self.market.data.is_admin(self.signer) {
            Some(ErrorCode::Unauthorized)
        } else if self.market.data.is_paused {
            Some(ErrorCode::MarketPaused)
        } else {
            None
        }
    }

    /// Why `add_allowed_collateral` refuses, if it does.
    pub open spec fn add_rejection(self, collateral_mint: Pubkey) -> Option<ErrorCode> {
        if self.list_locked() is Some {
            self.list_locked()
        } else if !self.market.data.allowed_list().contains(collateral_mint)
            && self.market.data.allowed_count as int >= MAX_COLLATERALS as int {
            Some(ErrorCode::TooManyCollaterals)
        } else {
            None
        }
    }

    /// The market after `collateral_mint` was added: unchanged where the
    /// asset is listed already, else with the asset in the first free slot.
    pub open spec fn added(self, collateral_mint: Pubkey) -> Market {
        let m = self.market.data;
        if m.allowed_list().contains(collateral_mint) {
            m
        } else {
            Market {
                allowed_collaterals: vstd::array::spec_array_update(
                    m.allowed_collaterals,
                    m.allowed_count as int,
                    collateral_mint,
                ),
                allowed_count: (m.allowed_count + 1) as u8,
                ..m
            }
        }
    }

    /// Why `remove_allowed_collateral` refuses, if it does.
    pub open spec fn remove_rejection(self, collateral_mint: Pubkey) -> Option<ErrorCode> {
        if self.list_locked() is Some {
            self.list_locked()
        } else if !self.market.data.allowed_list().contains(collateral_mint) {
            Some(ErrorCode::CollateralNotFound)
        } else {
            None
        }
    }

    /// The slot that holds `collateral_mint`.
    pub open spec fn slot_of(self, collateral_mint: Pubkey) -> int {
        choose|i: int|
            0 <= i < self.market.data.allowed_count && self.market.data.allowed_list()[i]
                == collateral_mint
    }

    /// The market after `collateral_mint` was removed: the last listed
    /// asset takes its slot, and the last slot is cleared.
    pub open spec fn removed(self, collateral_mint: Pubkey) -> Market {
        let m = self.market.data;
        let last = m.allowed_count - 1;
        Market {
            allowed_collaterals: vstd::array::spec_array_update(
                vstd::array::spec_array_update(
                    m.allowed_collaterals,
                    self.slot_of(collateral_mint),
                    m.allowed_collaterals[last],
                ),
                last,
                Pubkey::zero(),
            ),
            allowed_count: last as u8,
            ..m
        }
    }
}

/// The check that the two changes to the collateral list share.
pub fn check_list_unlocked(ctx: &AdminMarketWrite) -> (r: Result<(), ErrorCode>)
    ensures
        match r {
            Ok(_) => ctx.list_locked() is None,
            Err(e) => ctx.list_locked() == Some(e),
        },
{
    match only_admin(&ctx.market.data, &ctx.signer) {
        Ok(_) => {},
        Err(e) => {
            return Err(e);
        },
    }
    if ctx.market.data.is_paused {
        return Err(ErrorCode::MarketPaused);
    }
    Ok(())
}

/// Lists `collateral_mint` as an accepted collateral asset.
///
/// Only an administrator may, and only while the market is not paused.
/// Where the asset is listed already, nothing changes and no event is
/// published. Fails with `TooManyCollaterals` where the asset is new and
/// the list is full.
pub fn add_allowed_collateral(ctx: &mut AdminMarketWrite, collateral_mint: Pubkey) -> (r: Result<
    Effects,
    ErrorCode,
>)
    requires
        old(ctx).market.data.wf(),
    ensures
        match r {
            Ok(effects) => {
                &&& old(ctx).add_rejection(collateral_mint) is None
                &&& *final(ctx) == old(ctx).with_market(old(ctx).added(collateral_mint))
                &&& effects@ == (EffectsView {
                    actions: Seq::empty(),
                    event: if old(ctx).market.data.allowed_list().contains(collateral_mint) {
                        None
                    } else {
                        Some(
                            Event::CollateralAdded(
                                CollateralAdded { market: old(ctx).market.key, collateral_mint },
                            ),
                        )
                    },
                })
                &&& final(ctx).market.data.allowed_set() == old(ctx).market.data.allowed_set().insert(
                    collateral_mint,
                )
            },
            Err(e) => {
                &&& old(ctx).add_rejection(collateral_mint) == Some(e)
                &&& *final(ctx) == *old(ctx)
            },
        },
        final(ctx).market.data.wf(),
{
    match check_list_unlocked(ctx) {
        Ok(_) => {},
        Err(e) => {
            return Err(e);
        },
    }
    if find_collateral(&ctx.market.data, &collateral_mint).is_some() {
        proof {
            assert(ctx.market.data.allowed_set() =~= ctx.market.data.allowed_set().insert(
                collateral_mint,
            ));
        }
        return Ok(Effects::nothing());
    }
    if !((ctx.market.data.allowed_count as usize) < MAX_COLLATERALS) {
        return Err(ErrorCode::TooManyCollaterals);
    }
    let idx: usize = ctx.market.data.allowed_count as usize;
    ctx.market.data.allowed_collaterals[idx] = collateral_mint;
    ctx.market.data.allowed_count = ctx.market.data.allowed_count + 1;
    proof {
        let before = old(ctx).market.data.allowed_list();
        let after = ctx.market.data.allowed_list();
        assert(after =~= before.push(collateral_mint));
        assert forall|k: Pubkey| after.contains(k) <==> (before.contains(k) || k
            == collateral_mint) by {
            if before.contains(k) {
                let i = choose|i: int| 0 <= i < before.len() && before[i] == k;
                assert(after[i] == k);
            }
            if k == collateral_mint {
                assert(after[idx as int] == k);
            }
        }
        assert(ctx.market.data.allowed_set() =~= old(ctx).market.data.allowed_set().insert(
            collateral_mint,
        ));
    }
    Ok(
        Effects::event_only(
            Event::CollateralAdded(CollateralAdded { market: ctx.market.key, collateral_mint }),
        ),
    )
}

/// Takes `collateral_mint` off the list of accepted collateral assets.
///
/// Only an administrator may, and only while the market is not paused.
/// Fails with `CollateralNotFound` where the asset is not listed.
pub fn remove_allowed_collateral(ctx: &mut AdminMarketWrite, collateral_mint: Pubkey) -> (r:
    Result<Effects, ErrorCode>)
    requires
        old(ctx).market.data.wf(),
    ensures
        match r {
            Ok(effects) => {
                &&& old(ctx).remove_rejection(collateral_mint) is None
                &&& *final(ctx) == old(ctx).with_market(old(ctx).removed(collateral_mint))
                &&& effects@ == (EffectsView {
                    actions: Seq::empty(),
                    event: Some(
                        Event::CollateralRemoved(
                            CollateralRemoved { market: old(ctx).market.key, collateral_mint },
                        ),
                    ),
                })
                &&& final(ctx).market.data.allowed_set() == old(ctx).market.data.allowed_set().remove(
                    collateral_mint,
                )
            },
            Err(e) => old(ctx).remove_rejection(collateral_mint) == Some(e) && *final(ctx)
                == *old(ctx),
        },
        final(ctx).market.data.wf(),
{
    match check_list_unlocked(ctx) {
        Ok(_) => {},
        Err(e) => {
            return Err(e);
        },
    }
    let i: usize = match find_collateral(&ctx.market.data, &collateral_mint) {
        Some(i) => i,
        None => {
            return Err(ErrorCode::CollateralNotFound);
        },
    };
    let last: usize = (ctx.market.data.allowed_count - 1) as usize;
    proof {
        let before = old(ctx).market.data.allowed_list();
        let chosen = old(ctx).slot_of(collateral_mint);
        assert(before[i as int] == collateral_mint);
        assert(0 <= chosen < before.len() && before[chosen] == collateral_mint);
        assert(chosen == i);
    }
    let moved = ctx.market.data.allowed_collaterals[last];
    ctx.market.data.allowed_collaterals[i] = moved;
    ctx.market.data.allowed_collaterals[last] = Pubkey::default();
    ctx.market.data.allowed_count = ctx.market.data.allowed_count - 1;
    proof {
        let before = old(ctx).market.data.allowed_list();
        let after = ctx.market.data.allowed_list();
        assert(after.len() == last);
        assert forall|j: int| 0 <= j < after.len() implies after[j] == (if j == i {
            before[last as int]
        } else {
            before[j]
        }) by {}
        assert forall|a: int, b: int| 0 <= a < after.len() && 0 <= b < after.len() && a
            != b implies after[a] != after[b] by {
            let from_a = if a == i {
                last as int
            } else {
                a
            };
            let from_b = if b == i {
                last as int
            } else {
                b
            };
            assert(after[a] == before[from_a]);
            assert(after[b] == before[from_b]);
        }
        assert forall|k: Pubkey| after.contains(k) <==> (before.contains(k) && k
            != collateral_mint) by {
            if after.contains(k) {
                let j = choose|j: int| 0 <= j < after.len() && after[j] == k;
                let from_j = if j == i {
                    last as int
                } else {
                    j
                };
                assert(before[from_j] == k);
                assert(from_j != i || j == i);
            }
            if before.contains(k) && k != collateral_mint {
                let j = choose|j: int| 0 <= j < before.len() && before[j] == k;
                if j == last {
                    assert(after[i as int] == k);
                } else {
                    assert(after[j] == k);
                }
            }
        }
        assert(ctx.market.data.allowed_set() =~= old(ctx).market.data.allowed_set().remove(
            collateral_mint,
        ));
    }
    Ok(
        Effects::event_only(
            Event::CollateralRemoved(
                CollateralRemoved { market: ctx.market.key, collateral_mint },
            ),
        ),
    )
}

/// Pauses the market: an administrator stops new deals and changes to the
/// collateral list. Pausing a paused market leaves it paused.
pub fn pause_market(ctx: &mut AdminMarketWrite) -> (r: Result<Effects, ErrorCode>)
    ensures
        match r {
            Ok(effects) => {
                &&& old(ctx).market.data.is_admin(old(ctx).signer)
                &&& *final(ctx) == old(ctx).with_paused(true)
                &&& effects@ == (EffectsView {
                    actions: Seq::empty(),
                    event: Some(Event::MarketPaused(MarketPaused { market: old(ctx).market.key })),
                })
            },
            Err(e) => e == ErrorCode::Unauthorized && !old(ctx).market.data.is_admin(
                old(ctx).signer,
            ) && *final(ctx) == *old(ctx),
        },
        old(ctx).market.data.wf() ==> final(ctx).market.data.wf(),
{
    match only_admin(&ctx.market.data, &ctx.signer) {
        Ok(_) => {},
        Err(e) => {
            return Err(e);
        },
    }
    ctx.market.data.is_paused = true;
    Ok(Effects::event_only(Event::MarketPaused(MarketPaused { market: ctx.market.key })))
}

/// Lifts the pause: an administrator lets the market accept new deals
/// again. Lifting the pause of a market that is not paused changes nothing.
pub fn unpause_market(ctx: &mut AdminMarketWrite) -> (r: Result<Effects, ErrorCode>)
    ensures
        match r {
            Ok(effects) => {
                &&& old(ctx).market.data.is_admin(old(ctx).signer)
                &&& *final(ctx) == old(ctx).with_paused(false)
                &&& effects@ == (EffectsView {
                    actions: Seq::empty(),
                    event: Some(
                        Event::MarketUnpaused(MarketUnpaused { market: old(ctx).market.key }),
                    ),
                })
            },
            Err(e) => e == ErrorCode::Unauthorized && !old(ctx).market.data.is_admin(
                old(ctx).signer,
            ) && *final(ctx) == *old(ctx),
        },
        old(ctx).market.data.wf() ==> final(ctx).market.data.wf(),
{
    match only_admin(&ctx.market.data, &ctx.signer) {
        Ok(_) => {},
        Err(e) => {
            return Err(e);
        },
    }
    ctx.market.data.is_paused = false;
    Ok(Effects::event_only(Event::MarketUnpaused(MarketUnpaused { market: ctx.market.key })))
}

/// Names the market's strategy operator; only an administrator may.
pub fn yield_set_operator(ctx: &mut AdminMarketWrite, operator: Pubkey) -> (r: Result<
    Effects,
    ErrorCode,
>)
    ensures
        match r {
            Ok(effects) => {
                &&& old(ctx).market.data.is_admin(old(ctx).signer)
                &&& *final(ctx) == old(ctx).with_market(
                    Market { strategy_operator: operator, ..old(ctx).market.data },
                )
                &&& effects@ == (EffectsView {
                    actions: Seq::empty(),
                    event: Some(
                        Event::YieldOperatorSet(
                            YieldOperatorSet { market: old(ctx).market.key, operator },
                        ),
                    ),
                })
            },
            Err(e) => e == ErrorCode::Unauthorized && !old(ctx).market.data.is_admin(
                old(ctx).signer,
            ) && *final(ctx) == *old(ctx),
        },
        old(ctx).market.data.wf() ==> final(ctx).market.data.wf(),
{
    match only_admin(&ctx.market.data, &ctx.signer) {
        Ok(_) => {},
        Err(e) => {
            return Err(e);
        },
    }
    ctx.market.data.strategy_operator = operator;
    Ok(
        Effects::event_only(
            Event::YieldOperatorSet(YieldOperatorSet { market: ctx.market.key, operator }),
        ),
    )
}

/// What `post_price` works on: the market and the party that posts.
#[derive(Clone, Copy, Debug, PartialEq, Eq)]
pub struct PostPrice {
    pub market: Account<Market>,
    pub poster: Pubkey,
}

impl PostPrice {
    /// The market after the post: price, exponent, time hint and volatility
    /// are overwritten, nothing else changed.
    pub open spec fn posted(self, price: u64, exponent: i32, settle_ts: i64, vol_bps: u16) -> Market {
        Market {
            last_price: price,
            price_exponent: exponent,
            settle_ts,
            last_vol_bps: vol_bps,
            ..self.market.data
        }
    }
}

/// Posts a price and a volatility.
///
/// The oracle authority, the market authority and the governance authority
/// may post. The post overwrites what was posted before, whatever its age:
/// the latest post always wins.
pub fn post_price(ctx: &mut PostPrice, price: u64, exponent: i32, settle_ts: i64, vol_bps: u16) -> (r:
    Result<Effects, ErrorCode>)
    ensures
        match r {
            Ok(effects) => {
                &&& old(ctx).market.data.may_post_price(old(ctx).poster)
                &&& *final(ctx) == (PostPrice {
                    market: Account {
                        key: old(ctx).market.key,
                        data: old(ctx).posted(price, exponent, settle_ts, vol_bps),
                    },
                    ..*old(ctx)
                })
                &&& effects@ == (EffectsView {
                    actions: Seq::empty(),
                    event: Some(
                        Event::PricePosted(
                            PricePosted {
                                market: old(ctx).market.key,
                                price,
                                exponent,
                                settle_ts,
                                vol_bps,
                            },
                        ),
                    ),
                })
            },
            Err(e) => e == ErrorCode::Unauthorized && !old(ctx).market.data.may_post_price(
                old(ctx).poster,
            ) && *final(ctx) == *old(ctx),
        },
        old(ctx).market.data.wf() ==> final(ctx).market.data.wf(),
{
    let signer = ctx.poster;
    if !(signer == ctx.market.data.oracle_authority || signer == ctx.market.data.authority
        || signer == ctx.market.data.governance_authority) {
        return Err(ErrorCode::Unauthorized);
    }
    ctx.market.data.last_price = price;
    ctx.market.data.price_exponent = exponent;
    ctx.market.data.settle_ts = settle_ts;
    ctx.market.data.last_vol_bps = vol_bps;
    Ok(
        Effects::event_only(
            Event::PricePosted(
                PricePosted { market: ctx.market.key, price, exponent, settle_ts, vol_bps },
            ),
        ),
    )
}

} // verus!
