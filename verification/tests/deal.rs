use tokenized_warehouse_receipts::{
    add_allowed_collateral, deposit_margin, freeze_deal, init_market, open_deal, pause_market,
    post_price, unfreeze_deal, Account, AdminDealWrite, AdminMarketWrite, Authority, Deal,
    DealFrozen, DealOpened, DealUnfrozen, DepositMargin, ErrorCode, Event, InitMarket,
    LedgerAccount, LedgerAction, MarginDeposited, Market, OpenDeal, PostPrice, Pubkey,
    SettlementKind, Side,
};

fn key(n: u8) -> Pubkey {
    Pubkey::new_from_array([n; 32])
}

const MARKET: u8 = 10;
const AUTHORITY: u8 = 11;
const GOVERNANCE: u8 = 12;
const ORACLE: u8 = 13;
const QUOTE: u8 = 14;
const RECEIPT: u8 = 15;
const DEAL: u8 = 30;
const LONG: u8 = 31;
const SHORT: u8 = 32;
const STRANGER: u8 = 99;
const NOW: i64 = 1_700_000_000;

fn blank_market() -> Market {
    Market {
        version: 0,
        authority: Pubkey::default(),
        governance_authority: Pubkey::default(),
        quote_mint: Pubkey::default(),
        receipt_mint: Pubkey::default(),
        oracle_authority: Pubkey::default(),
        fee_bps: 0,
        is_paused: false,
        last_price: 0,
        price_exponent: 0,
        settle_ts: 0,
        base_initial_margin_bps: 0,
        maintenance_margin_bps: 0,
        vol_multiplier_bps: 0,
        last_vol_bps: 0,
        allowed_collaterals: [Pubkey::default(); 4],
        allowed_count: 0,
        strategy_operator: Pubkey::default(),
    }
}

fn blank_deal() -> Deal {
    Deal {
        version: 0,
        deal_version: 0,
        market: Pubkey::default(),
        deal_id: 0,
        long: Pubkey::default(),
        short: Pubkey::default(),
        quote_mint: Pubkey::default(),
        receipt_mint: Pubkey::default(),
        strike_price: 0,
        price_exponent: 0,
        qty_receipt_amount: 0,
        settle_ts: 0,
        settlement_kind: SettlementKind::Cash,
        long_margin: 0,
        short_margin: 0,
        fee_bps: 0,
        is_settled: false,
        is_frozen: false,
        bump: 0,
        vault_bump: 0,
    }
}

/// A market with a base margin of 10%, a volatility multiplier of 50% and a
/// posted volatility of 20%: the margin rate is 20%.
fn market() -> Account<Market> {
    let mut ctx = InitMarket {
        authority: key(AUTHORITY),
        quote_mint: key(QUOTE),
        receipt_mint: key(RECEIPT),
        market: Account { key: key(MARKET), data: blank_market() },
    };
    init_market(&mut ctx, 100, key(ORACLE), key(GOVERNANCE), 1000, 500, 5000).unwrap();
    let mut post = PostPrice { market: ctx.market, poster: key(ORACLE) };
    post_price(&mut post, 100_000_000, -6, 0, 2000).unwrap();
    post.market
}

fn open_ctx(market: Account<Market>) -> OpenDeal {
    OpenDeal {
        market,
        long: key(LONG),
        short: key(SHORT),
        quote_mint: key(QUOTE),
        deal: Account { key: key(DEAL), data: blank_deal() },
        deal_bump: 253,
        vault_bump: 254,
    }
}

fn open(ctx: &mut OpenDeal, margin_long: u64, margin_short: u64) -> Result<(), ErrorCode> {
    open_deal(
        ctx,
        NOW,
        7,
        1,
        100_000_000,
        10_000_000,
        NOW + 3600,
        SettlementKind::Cash,
        margin_long,
        margin_short,
    )
    .map(|_| ())
}

fn opened() -> Account<Deal> {
    let mut ctx = open_ctx(market());
    open(&mut ctx, 200_000_000, 250_000_000).unwrap();
    ctx.deal
}

fn funding(side: Side, payer: u8, amount: u64) -> LedgerAction {
    LedgerAction::Transfer {
        from: LedgerAccount::Wallet { owner: key(payer), mint: key(QUOTE) },
        to: LedgerAccount::MarginVault { deal: key(DEAL), side },
        authority: Authority::Signer { key: key(payer) },
        amount,
    }
}

#[test]
fn open_deal_records_and_funds_the_deal() {
    let mut ctx = open_ctx(market());
    let effects = open_deal(
        &mut ctx,
        NOW,
        7,
        1,
        100_000_000,
        10_000_000,
        NOW + 3600,
        SettlementKind::Physical,
        200_000_000,
        250_000_000,
    )
    .unwrap();
    assert_eq!(
        ctx.deal.data,
        Deal {
            version: 1,
            deal_version: 1,
            market: key(MARKET),
            deal_id: 7,
            long: key(LONG),
            short: key(SHORT),
            quote_mint: key(QUOTE),
            receipt_mint: key(RECEIPT),
            strike_price: 100_000_000,
            price_exponent: -6,
            qty_receipt_amount: 10_000_000,
            settle_ts: NOW + 3600,
            settlement_kind: SettlementKind::Physical,
            long_margin: 200_000_000,
            short_margin: 250_000_000,
            fee_bps: 100,
            is_settled: false,
            is_frozen: false,
            bump: 253,
            vault_bump: 254,
        }
    );
    assert_eq!(ctx.deal.key, key(DEAL));
    assert_eq!(
        effects.actions,
        vec![funding(Side::Long, LONG, 200_000_000), funding(Side::Short, SHORT, 250_000_000)]
    );
    assert_eq!(
        effects.event,
        Some(Event::DealOpened(DealOpened {
            market: key(MARKET),
            deal: key(DEAL),
            deal_id: 7,
            long: key(LONG),
            short: key(SHORT),
            quote_mint: key(QUOTE),
            receipt_mint: key(RECEIPT),
            strike_price: 100_000_000,
            qty_receipt_amount: 10_000_000,
            settle_ts: NOW + 3600,
            kind: 1,
            fee_bps: 100,
        }))
    );
}

#[test]
fn open_deal_exactly_at_the_required_margin_succeeds() {
    let mut ctx = open_ctx(market());
    assert_eq!(open(&mut ctx, 200_000_000, 200_000_000), Ok(()));
    assert_eq!(ctx.deal.data.long_margin, 200_000_000);
    assert_eq!(ctx.deal.data.short_margin, 200_000_000);
}

#[test]
fn open_deal_one_unit_below_the_required_margin_fails() {
    let before = open_ctx(market());
    let mut ctx = before;
    assert_eq!(open(&mut ctx, 199_999_999, 200_000_000), Err(ErrorCode::InsufficientInitialMargin));
    assert_eq!(ctx, before);
    assert_eq!(open(&mut ctx, 200_000_000, 199_999_999), Err(ErrorCode::InsufficientInitialMargin));
    assert_eq!(ctx, before);
    assert_eq!(open(&mut ctx, u64::MAX, 0), Err(ErrorCode::InsufficientInitialMargin));
    assert_eq!(ctx, before);
}

#[test]
fn open_deal_copies_the_exponent_and_fee_of_the_market_as_they_stand() {
    let mut post = PostPrice { market: market(), poster: key(ORACLE) };
    post_price(&mut post, 100_000, -3, 0, 2000).unwrap();
    let mut ctx = open_ctx(post.market);
    // At three decimal places the notional is 1_000_000_000_000 and the margin a fifth of it.
    assert_eq!(
        open(&mut ctx, 199_999_999_999, 200_000_000_000),
        Err(ErrorCode::InsufficientInitialMargin)
    );
    assert_eq!(open(&mut ctx, 200_000_000_000, 200_000_000_000), Ok(()));
    assert_eq!(ctx.deal.data.price_exponent, -3);
    assert_eq!(ctx.deal.data.fee_bps, 100);
}

#[test]
fn open_deal_without_margin_requirement_moves_nothing() {
    let mut init = InitMarket {
        authority: key(AUTHORITY),
        quote_mint: key(QUOTE),
        receipt_mint: key(RECEIPT),
        market: Account { key: key(MARKET), data: blank_market() },
    };
    init_market(&mut init, 0, key(ORACLE), key(GOVERNANCE), 0, 0, 0).unwrap();
    let mut ctx = open_ctx(init.market);
    let effects = open_deal(
        &mut ctx,
        NOW,
        1,
        1,
        100_000_000,
        10_000_000,
        NOW + 1,
        SettlementKind::Cash,
        0,
        5,
    )
    .unwrap();
    assert_eq!(effects.actions, vec![funding(Side::Short, SHORT, 5)]);
    assert_eq!(ctx.deal.data.long_margin, 0);
    assert_eq!(ctx.deal.data.short_margin, 5);
}

#[test]
fn open_deal_is_blocked_while_the_market_is_paused() {
    let mut admin = AdminMarketWrite { signer: key(AUTHORITY), market: market() };
    pause_market(&mut admin).unwrap();
    let before = open_ctx(admin.market);
    let mut ctx = before;
    assert_eq!(open(&mut ctx, 200_000_000, 200_000_000), Err(ErrorCode::MarketPaused));
    assert_eq!(ctx, before);
}

#[test]
fn open_deal_refuses_another_schema_version() {
    let mut ctx = open_ctx(market());
    for version in [0u8, 2, 255] {
        let r = open_deal(
            &mut ctx,
            NOW,
            7,
            version,
            100_000_000,
            10_000_000,
            NOW + 3600,
            SettlementKind::Cash,
            200_000_000,
            200_000_000,
        );
        assert_eq!(r, Err(ErrorCode::DealVersionMismatch));
    }
}

#[test]
fn open_deal_needs_a_settlement_time_in_the_future() {
    let mut ctx = open_ctx(market());
    for settle_ts in [NOW, NOW - 1, 0, i64::MIN] {
        let r = open_deal(
            &mut ctx,
            NOW,
            7,
            1,
            100_000_000,
            10_000_000,
            settle_ts,
            SettlementKind::Cash,
            200_000_000,
            200_000_000,
        );
        assert_eq!(r, Err(ErrorCode::InvalidSettlementTime));
    }
    let r = open_deal(
        &mut ctx,
        NOW,
        7,
        1,
        100_000_000,
        10_000_000,
        NOW + 1,
        SettlementKind::Cash,
        200_000_000,
        200_000_000,
    );
    assert!(r.is_ok());
}

#[test]
fn open_deal_refuses_collateral_that_the_market_does_not_accept() {
    let mut ctx = open_ctx(market());
    ctx.quote_mint = key(20);
    assert_eq!(open(&mut ctx, 200_000_000, 200_000_000), Err(ErrorCode::CollateralNotAllowed));
}

#[test]
fn open_deal_accepts_listed_collateral() {
    let mut admin = AdminMarketWrite { signer: key(AUTHORITY), market: market() };
    add_allowed_collateral(&mut admin, key(20)).unwrap();
    let mut ctx = open_ctx(admin.market);
    ctx.quote_mint = key(20);
    assert_eq!(open(&mut ctx, 200_000_000, 200_000_000), Ok(()));
    assert_eq!(ctx.deal.data.quote_mint, key(20));
}

#[test]
fn open_deal_refuses_a_requirement_that_no_margin_can_meet() {
    let mut ctx = open_ctx(market());
    let r = open_deal(
        &mut ctx,
        NOW,
        7,
        1,
        u64::MAX,
        u64::MAX,
        NOW + 3600,
        SettlementKind::Cash,
        u64::MAX,
        u64::MAX,
    );
    assert_eq!(r, Err(ErrorCode::MathOverflow));
}

#[test]
fn open_deal_checks_the_pause_before_anything_else() {
    let mut admin = AdminMarketWrite { signer: key(AUTHORITY), market: market() };
    pause_market(&mut admin).unwrap();
    let mut ctx = open_ctx(admin.market);
    ctx.quote_mint = key(20);
    let r = open_deal(&mut ctx, NOW, 7, 9, 1, 1, NOW, SettlementKind::Cash, 0, 0);
    assert_eq!(r, Err(ErrorCode::MarketPaused));
}

#[test]
fn deposit_margin_adds_to_the_side_of_the_payer() {
    let mut ctx = DepositMargin { deal: opened(), payer: key(LONG) };
    let effects = deposit_margin(&mut ctx, Side::Long, 5_000).unwrap();
    assert_eq!(ctx.deal.data.long_margin, 200_005_000);
    assert_eq!(ctx.deal.data.short_margin, 250_000_000);
    assert_eq!(effects.actions, vec![funding(Side::Long, LONG, 5_000)]);
    assert_eq!(
        effects.event,
        Some(Event::MarginDeposited(MarginDeposited { deal: key(DEAL), side: 0, amount: 5_000 }))
    );
    let mut ctx = DepositMargin { deal: ctx.deal, payer: key(SHORT) };
    let effects = deposit_margin(&mut ctx, Side::Short, 1).unwrap();
    assert_eq!(ctx.deal.data.long_margin, 200_005_000);
    assert_eq!(ctx.deal.data.short_margin, 250_000_001);
    assert_eq!(effects.actions, vec![funding(Side::Short, SHORT, 1)]);
    assert_eq!(
        effects.event,
        Some(Event::MarginDeposited(MarginDeposited { deal: key(DEAL), side: 1, amount: 1 }))
    );
}

#[test]
fn deposit_margin_changes_nothing_else_of_the_deal() {
    let before = opened();
    let mut ctx = DepositMargin { deal: before, payer: key(LONG) };
    deposit_margin(&mut ctx, Side::Long, 5_000).unwrap();
    let mut expected = before;
    expected.data.long_margin = 200_005_000;
    assert_eq!(ctx.deal, expected);
}

#[test]
fn deposit_margin_refuses_a_zero_amount() {
    let before = DepositMargin { deal: opened(), payer: key(LONG) };
    let mut ctx = before;
    assert_eq!(deposit_margin(&mut ctx, Side::Long, 0), Err(ErrorCode::ZeroAmount));
    assert_eq!(ctx, before);
}

#[test]
fn deposit_margin_is_for_the_party_on_that_side() {
    let mut ctx = DepositMargin { deal: opened(), payer: key(LONG) };
    assert_eq!(deposit_margin(&mut ctx, Side::Short, 1), Err(ErrorCode::Unauthorized));
    let mut ctx = DepositMargin { deal: opened(), payer: key(SHORT) };
    assert_eq!(deposit_margin(&mut ctx, Side::Long, 1), Err(ErrorCode::Unauthorized));
    let mut ctx = DepositMargin { deal: opened(), payer: key(STRANGER) };
    assert_eq!(deposit_margin(&mut ctx, Side::Long, 1), Err(ErrorCode::Unauthorized));
    assert_eq!(ctx.deal, opened());
}

#[test]
fn deposit_margin_into_a_frozen_deal_fails() {
    let mut deal = opened();
    deal.data.is_frozen = true;
    let before = DepositMargin { deal, payer: key(LONG) };
    let mut ctx = before;
    assert_eq!(deposit_margin(&mut ctx, Side::Long, 1), Err(ErrorCode::DealFrozen));
    assert_eq!(ctx, before);
    let mut stranger = DepositMargin { deal, payer: key(STRANGER) };
    assert_eq!(deposit_margin(&mut stranger, Side::Long, 1), Err(ErrorCode::DealFrozen));
}

#[test]
fn deposit_margin_into_a_settled_deal_fails() {
    let mut deal = opened();
    deal.data.is_settled = true;
    let mut ctx = DepositMargin { deal, payer: key(LONG) };
    assert_eq!(deposit_margin(&mut ctx, Side::Long, 1), Err(ErrorCode::AlreadySettled));
    assert_eq!(ctx.deal, deal);
}

#[test]
fn deposit_margin_that_would_overflow_the_record_fails() {
    let mut deal = opened();
    deal.data.long_margin = u64::MAX - 1;
    let mut ctx = DepositMargin { deal, payer: key(LONG) };
    assert_eq!(deposit_margin(&mut ctx, Side::Long, 2), Err(ErrorCode::MathOverflow));
    assert_eq!(ctx.deal, deal);
    assert!(deposit_margin(&mut ctx, Side::Long, 1).is_ok());
    assert_eq!(ctx.deal.data.long_margin, u64::MAX);
}

#[test]
fn freeze_and_unfreeze_toggle_the_flag() {
    let mut ctx = AdminDealWrite { signer: key(AUTHORITY), market: market(), deal: opened() };
    let effects = freeze_deal(&mut ctx).unwrap();
    assert!(ctx.deal.data.is_frozen);
    assert!(effects.actions.is_empty());
    assert_eq!(effects.event, Some(Event::DealFrozen(DealFrozen { deal: key(DEAL) })));
    freeze_deal(&mut ctx).unwrap();
    assert!(ctx.deal.data.is_frozen);
    let mut ctx = AdminDealWrite { signer: key(GOVERNANCE), market: ctx.market, deal: ctx.deal };
    let effects = unfreeze_deal(&mut ctx).unwrap();
    assert!(!ctx.deal.data.is_frozen);
    assert_eq!(effects.event, Some(Event::DealUnfrozen(DealUnfrozen { deal: key(DEAL) })));
    assert_eq!(ctx.deal, opened());
}

#[test]
fn freeze_and_unfreeze_are_for_administrators() {
    for signer in [ORACLE, LONG, SHORT, STRANGER] {
        let before = AdminDealWrite { signer: key(signer), market: market(), deal: opened() };
        let mut ctx = before;
        assert_eq!(freeze_deal(&mut ctx), Err(ErrorCode::Unauthorized));
        assert_eq!(unfreeze_deal(&mut ctx), Err(ErrorCode::Unauthorized));
        assert_eq!(ctx, before);
    }
}

#[test]
fn freeze_and_unfreeze_need_the_market_of_the_deal() {
    let mut other = market();
    other.key = key(MARKET + 1);
    let before = AdminDealWrite { signer: key(AUTHORITY), market: other, deal: opened() };
    let mut ctx = before;
    assert_eq!(freeze_deal(&mut ctx), Err(ErrorCode::ConstraintMismatch));
    assert_eq!(unfreeze_deal(&mut ctx), Err(ErrorCode::ConstraintMismatch));
    assert_eq!(ctx, before);
}

#[test]
fn freeze_does_not_touch_whether_the_deal_is_settled() {
    let mut deal = opened();
    deal.data.is_settled = true;
    let mut ctx = AdminDealWrite { signer: key(AUTHORITY), market: market(), deal };
    freeze_deal(&mut ctx).unwrap();
    assert!(ctx.deal.data.is_settled);
    unfreeze_deal(&mut ctx).unwrap();
    assert!(ctx.deal.data.is_settled);
    assert_eq!(ctx.deal, deal);
}

#[test]
fn a_thawed_deal_takes_deposits_again() {
    let mut admin = AdminDealWrite { signer: key(AUTHORITY), market: market(), deal: opened() };
    freeze_deal(&mut admin).unwrap();
    let mut ctx = DepositMargin { deal: admin.deal, payer: key(LONG) };
    assert_eq!(deposit_margin(&mut ctx, Side::Long, 1), Err(ErrorCode::DealFrozen));
    unfreeze_deal(&mut admin).unwrap();
    let mut ctx = DepositMargin { deal: admin.deal, payer: key(LONG) };
    assert!(deposit_margin(&mut ctx, Side::Long, 1).is_ok());
}

#[test]
fn recorded_margins_follow_the_margin_vaults() {
    let mut ctx = open_ctx(market());
    let mut history: Vec<LedgerAction> = Vec::new();
    let opened = open_deal(
        &mut ctx,
        NOW,
        7,
        1,
        100_000_000,
        10_000_000,
        NOW + 3600,
        SettlementKind::Cash,
        200_000_000,
        250_000_000,
    )
    .unwrap();
    history.extend(opened.actions);
    let mut long = DepositMargin { deal: ctx.deal, payer: key(LONG) };
    history.extend(deposit_margin(&mut long, Side::Long, 17).unwrap().actions);
    history.extend(deposit_margin(&mut long, Side::Long, 3).unwrap().actions);
    let mut short = DepositMargin { deal: long.deal, payer: key(SHORT) };
    history.extend(deposit_margin(&mut short, Side::Short, 1_000).unwrap().actions);
    let mut long_vault: u64 = 0;
    let mut short_vault: u64 = 0;
    for action in history {
        match action {
            LedgerAction::Transfer { to, amount, .. } => {
                if to == (LedgerAccount::MarginVault { deal: key(DEAL), side: Side::Long }) {
                    long_vault += amount;
                }
                if to == (LedgerAccount::MarginVault { deal: key(DEAL), side: Side::Short }) {
                    short_vault += amount;
                }
            }
            _ => panic!("only transfers fund a deal"),
        }
    }
    assert_eq!(short.deal.data.long_margin, long_vault);
    assert_eq!(short.deal.data.short_margin, short_vault);
    assert_eq!(long_vault, 200_000_020);
    assert_eq!(short_vault, 250_001_000);
}

#[test]
fn open_deal_refuses_a_quantity_of_zero() {
    let before = open_ctx(market());
    let mut ctx = before;
    let r = open_deal(
        &mut ctx,
        NOW,
        7,
        1,
        100_000_000,
        0,
        NOW + 3600,
        SettlementKind::Cash,
        200_000_000,
        200_000_000,
    );
    assert_eq!(r, Err(ErrorCode::ZeroAmount));
    assert_eq!(ctx, before);
    let r = open_deal(&mut ctx, NOW, 7, 1, 0, 0, NOW + 3600, SettlementKind::Physical, 0, 0);
    assert_eq!(r, Err(ErrorCode::ZeroAmount));
    assert_eq!(ctx, before);
    let r = open_deal(&mut ctx, NOW, 7, 1, 0, 1, NOW + 3600, SettlementKind::Physical, 0, 0);
    assert!(r.is_ok());
    assert_eq!(ctx.deal.data.qty_receipt_amount, 1);
}
