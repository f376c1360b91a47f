use tokenized_warehouse_receipts::{
    payout_leftovers_after_settlement, settle_cash, settle_cash_inner, settle_partial_physical,
    settle_physical, Account, Authority, CashSettled, Deal, DealSnapshot, ErrorCode, Event,
    LedgerAccount, LedgerAction, Market, PartialPhysicalSettled, PhysicalSettled, Pubkey,
    SettleCash, SettlePhysical, SettlementKind, Side,
};

fn key(n: u8) -> Pubkey {
    Pubkey::new_from_array([n; 32])
}

const MARKET: u8 = 10;
const QUOTE: u8 = 14;
const RECEIPT: u8 = 15;
const DEAL: u8 = 30;
const LONG: u8 = 31;
const SHORT: u8 = 32;
const SETTLE_AT: i64 = 1_700_000_000;

fn market(last_price: u64) -> Account<Market> {
    Account {
        key: key(MARKET),
        data: Market {
            version: 1,
            authority: key(11),
            governance_authority: key(12),
            quote_mint: key(QUOTE),
            receipt_mint: key(RECEIPT),
            oracle_authority: key(13),
            fee_bps: 100,
            is_paused: false,
            last_price,
            price_exponent: -6,
            settle_ts: 0,
            base_initial_margin_bps: 1000,
            maintenance_margin_bps: 500,
            vol_multiplier_bps: 5000,
            last_vol_bps: 2000,
            allowed_collaterals: [Pubkey::default(); 4],
            allowed_count: 0,
            strategy_operator: Pubkey::default(),
        },
    }
}

/// Strike 100.0, ten units, six decimal places, fee 1%.
fn deal(kind: SettlementKind) -> Account<Deal> {
    Account {
        key: key(DEAL),
        data: Deal {
            version: 1,
            deal_version: 1,
            market: key(MARKET),
            deal_id: 7,
            long: key(LONG),
            short: key(SHORT),
            quote_mint: key(QUOTE),
            receipt_mint: key(RECEIPT),
            strike_price: 100_000_000,
            price_exponent: -6,
            qty_receipt_amount: 10_000_000,
            settle_ts: SETTLE_AT,
            settlement_kind: kind,
            long_margin: 1_200_000_000,
            short_margin: 200_000_000,
            fee_bps: 100,
            is_settled: false,
            is_frozen: false,
            bump: 253,
            vault_bump: 254,
        },
    }
}

fn cash(last_price: u64, long_balance: u64, short_balance: u64) -> SettleCash {
    SettleCash {
        market: market(last_price),
        deal: deal(SettlementKind::Cash),
        long_vault_balance: long_balance,
        short_vault_balance: short_balance,
    }
}

fn physical(long_balance: u64, short_balance: u64) -> SettlePhysical {
    SettlePhysical {
        deal: deal(SettlementKind::Physical),
        long_vault_balance: long_balance,
        short_vault_balance: short_balance,
    }
}

fn vault(side: Side) -> LedgerAccount {
    LedgerAccount::MarginVault { deal: key(DEAL), side }
}

fn vault_of(side: Side) -> LedgerAccount {
    vault(side)
}

fn wallet(owner: u8) -> LedgerAccount {
    LedgerAccount::Wallet { owner: key(owner), mint: key(QUOTE) }
}

fn from_vault(side: Side, to: LedgerAccount, amount: u64) -> LedgerAction {
    LedgerAction::Transfer {
        from: vault(side),
        to,
        authority: Authority::Record { key: key(DEAL), bump: 254 },
        amount,
    }
}

fn fee_vault() -> LedgerAccount {
    LedgerAccount::FeeVault { market: key(MARKET), mint: key(QUOTE) }
}

fn delivery(amount: u64) -> LedgerAction {
    LedgerAction::Transfer {
        from: LedgerAccount::Wallet { owner: key(SHORT), mint: key(RECEIPT) },
        to: LedgerAccount::Wallet { owner: key(LONG), mint: key(RECEIPT) },
        authority: Authority::Signer { key: key(SHORT) },
        amount,
    }
}

fn paid_out_of(actions: &[LedgerAction], account: LedgerAccount) -> u64 {
    let mut total: u64 = 0;
    for action in actions {
        if let LedgerAction::Transfer { from, amount, .. } = action {
            if *from == account {
                total += *amount;
            }
        }
    }
    total
}

fn paid_into(actions: &[LedgerAction], account: LedgerAccount) -> u64 {
    let mut total: u64 = 0;
    for action in actions {
        if let LedgerAction::Transfer { to, amount, .. } = action {
            if *to == account {
                total += *amount;
            }
        }
    }
    total
}

#[test]
fn cash_settlement_when_long_wins() {
    let mut ctx = cash(110_000_000, 200_000_000, 200_000_000);
    let effects = settle_cash(&mut ctx, SETTLE_AT).unwrap();
    assert_eq!(
        effects.actions,
        vec![
            from_vault(Side::Short, wallet(LONG), 99_000_000),
            from_vault(Side::Short, fee_vault(), 1_000_000),
            from_vault(Side::Long, wallet(LONG), 200_000_000),
            from_vault(Side::Short, wallet(SHORT), 100_000_000),
        ]
    );
    assert_eq!(
        effects.event,
        Some(Event::CashSettled(CashSettled {
            deal: key(DEAL),
            final_price: 110_000_000,
            pnl_long: 100_000_000,
        }))
    );
    assert!(ctx.deal.data.is_settled);
    let mut expected = deal(SettlementKind::Cash);
    expected.data.is_settled = true;
    expected.data.long_margin = 0;
    expected.data.short_margin = 0;
    assert_eq!(ctx.deal, expected);
    assert_eq!(ctx.market, market(110_000_000));
}

#[test]
fn cash_settlement_when_short_wins() {
    let mut ctx = cash(90_000_000, 200_000_000, 150_000_000);
    let effects = settle_cash(&mut ctx, SETTLE_AT + 5).unwrap();
    assert_eq!(
        effects.actions,
        vec![
            from_vault(Side::Long, wallet(SHORT), 99_000_000),
            from_vault(Side::Long, fee_vault(), 1_000_000),
            from_vault(Side::Long, wallet(LONG), 100_000_000),
            from_vault(Side::Short, wallet(SHORT), 150_000_000),
        ]
    );
    assert_eq!(
        effects.event,
        Some(Event::CashSettled(CashSettled {
            deal: key(DEAL),
            final_price: 90_000_000,
            pnl_long: -100_000_000,
        }))
    );
    assert!(ctx.deal.data.is_settled);
}

#[test]
fn cash_settlement_at_the_strike_only_returns_margin() {
    let mut ctx = cash(100_000_000, 200_000_000, 150_000_000);
    let effects = settle_cash(&mut ctx, SETTLE_AT).unwrap();
    assert_eq!(
        effects.actions,
        vec![
            from_vault(Side::Long, wallet(LONG), 200_000_000),
            from_vault(Side::Short, wallet(SHORT), 150_000_000),
        ]
    );
    assert_eq!(
        effects.event,
        Some(Event::CashSettled(CashSettled {
            deal: key(DEAL),
            final_price: 100_000_000,
            pnl_long: 0,
        }))
    );
}

#[test]
fn cash_settlement_empties_both_vaults() {
    for (price, long_balance, short_balance) in [
        (110_000_000u64, 200_000_000u64, 200_000_000u64),
        (90_000_000, 123_456_789, 1),
        (100_000_000, 0, 0),
        (100_000_001, 5, 10),
        (137_000_000, 0, 370_000_000),
    ] {
        let mut ctx = cash(price, long_balance, short_balance);
        let effects = settle_cash(&mut ctx, SETTLE_AT).unwrap();
        assert_eq!(paid_out_of(&effects.actions, vault(Side::Long)), long_balance);
        assert_eq!(paid_out_of(&effects.actions, vault(Side::Short)), short_balance);
        let received = paid_into(&effects.actions, wallet(LONG))
            + paid_into(&effects.actions, wallet(SHORT))
            + paid_into(&effects.actions, fee_vault());
        assert_eq!(received, long_balance + short_balance);
    }
}

#[test]
fn cash_settlement_that_the_losing_vault_cannot_cover_fails_as_a_whole() {
    let before = cash(110_000_000, 200_000_000, 99_999_999);
    let mut ctx = before;
    assert_eq!(settle_cash(&mut ctx, SETTLE_AT), Err(ErrorCode::InsufficientBalance));
    assert_eq!(ctx, before);
    let before = cash(90_000_000, 99_999_999, 200_000_000);
    let mut ctx = before;
    assert_eq!(settle_cash(&mut ctx, SETTLE_AT), Err(ErrorCode::InsufficientBalance));
    assert_eq!(ctx, before);
    let mut exact = cash(110_000_000, 0, 100_000_000);
    let effects = settle_cash(&mut exact, SETTLE_AT).unwrap();
    assert_eq!(
        effects.actions,
        vec![
            from_vault(Side::Short, wallet(LONG), 99_000_000),
            from_vault(Side::Short, fee_vault(), 1_000_000),
        ]
    );
}

#[test]
fn cash_settlement_with_a_fee_that_rounds_to_zero_pays_no_fee() {
    // A profit of 99 at 1%: the fee is 0.99, rounded down to nothing.
    let mut ctx = cash(100_000_010, 0, 1_000);
    ctx.deal.data.qty_receipt_amount = 9_900_000;
    let effects = settle_cash(&mut ctx, SETTLE_AT).unwrap();
    assert_eq!(
        effects.actions,
        vec![
            from_vault(Side::Short, wallet(LONG), 99),
            from_vault(Side::Short, wallet(SHORT), 901),
        ]
    );
    let mut ctx = cash(100_000_009, 0, 1_000);
    ctx.deal.data.fee_bps = 1000;
    let effects = settle_cash(&mut ctx, SETTLE_AT).unwrap();
    assert_eq!(
        effects.actions,
        vec![
            from_vault(Side::Short, wallet(LONG), 81),
            from_vault(Side::Short, fee_vault(), 9),
            from_vault(Side::Short, wallet(SHORT), 910),
        ]
    );
}

#[test]
fn cash_settlement_uses_the_fee_and_exponent_of_the_deal() {
    let mut ctx = cash(110_000_000, 0, 1_000_000_000_000);
    ctx.market.data.fee_bps = 1000;
    ctx.market.data.price_exponent = -2;
    ctx.deal.data.fee_bps = 50;
    ctx.deal.data.price_exponent = -3;
    let effects = settle_cash(&mut ctx, SETTLE_AT).unwrap();
    assert_eq!(
        effects.actions,
        vec![
            from_vault(Side::Short, wallet(LONG), 99_500_000_000),
            from_vault(Side::Short, fee_vault(), 500_000_000),
            from_vault(Side::Short, wallet(SHORT), 900_000_000_000),
        ]
    );
}

#[test]
fn cash_settlement_needs_the_market_of_the_deal() {
    let before = {
        let mut ctx = cash(110_000_000, 200_000_000, 200_000_000);
        ctx.market.key = key(MARKET + 1);
        ctx
    };
    let mut ctx = before;
    assert_eq!(settle_cash(&mut ctx, SETTLE_AT), Err(ErrorCode::ConstraintMismatch));
    assert_eq!(ctx, before);
}

#[test]
fn cash_settlement_of_a_frozen_deal_fails() {
    let mut ctx = cash(110_000_000, 200_000_000, 200_000_000);
    ctx.deal.data.is_frozen = true;
    let before = ctx;
    assert_eq!(settle_cash(&mut ctx, SETTLE_AT), Err(ErrorCode::DealFrozen));
    assert_eq!(ctx, before);
    ctx.deal.data.is_settled = true;
    assert_eq!(settle_cash(&mut ctx, SETTLE_AT), Err(ErrorCode::DealFrozen));
}

#[test]
fn cash_settlement_a_second_time_fails() {
    let mut ctx = cash(110_000_000, 200_000_000, 200_000_000);
    settle_cash(&mut ctx, SETTLE_AT).unwrap();
    let settled = ctx;
    assert_eq!(settle_cash(&mut ctx, SETTLE_AT), Err(ErrorCode::AlreadySettled));
    assert_eq!(settle_cash(&mut ctx, SETTLE_AT + 1_000_000), Err(ErrorCode::AlreadySettled));
    assert_eq!(ctx, settled);
    ctx.market.data.last_price = 0;
    ctx.long_vault_balance = 0;
    ctx.short_vault_balance = 0;
    assert_eq!(settle_cash(&mut ctx, SETTLE_AT), Err(ErrorCode::AlreadySettled));
}

#[test]
fn cash_settlement_of_a_physical_deal_fails() {
    let mut ctx = cash(110_000_000, 200_000_000, 200_000_000);
    ctx.deal = deal(SettlementKind::Physical);
    assert_eq!(settle_cash(&mut ctx, SETTLE_AT), Err(ErrorCode::WrongSettlementKind));
    assert!(!ctx.deal.data.is_settled);
}

#[test]
fn cash_settlement_before_its_time_fails() {
    let mut ctx = cash(110_000_000, 200_000_000, 200_000_000);
    assert_eq!(settle_cash(&mut ctx, SETTLE_AT - 1), Err(ErrorCode::TooEarlyToSettle));
    assert_eq!(settle_cash(&mut ctx, i64::MIN), Err(ErrorCode::TooEarlyToSettle));
    assert!(!ctx.deal.data.is_settled);
    assert!(settle_cash(&mut ctx, SETTLE_AT).is_ok());
}

#[test]
fn cash_settlement_without_a_posted_price_fails() {
    let mut ctx = cash(0, 200_000_000, 200_000_000);
    assert_eq!(settle_cash(&mut ctx, SETTLE_AT), Err(ErrorCode::NoSettlementPrice));
    assert!(!ctx.deal.data.is_settled);
}

#[test]
fn cash_settlement_with_a_profit_beyond_range_fails() {
    let mut ctx = cash(u64::MAX, u64::MAX, u64::MAX);
    ctx.deal.data.strike_price = 0;
    ctx.deal.data.qty_receipt_amount = u64::MAX;
    ctx.deal.data.price_exponent = 0;
    assert_eq!(settle_cash(&mut ctx, SETTLE_AT), Err(ErrorCode::MathOverflow));
    ctx.deal.data.qty_receipt_amount = 2;
    assert_eq!(settle_cash(&mut ctx, SETTLE_AT), Err(ErrorCode::InsufficientBalance));
    assert!(!ctx.deal.data.is_settled);
}

#[test]
fn cash_settlement_with_a_fee_above_the_profit_fails() {
    let mut ctx = cash(110_000_000, 200_000_000, 200_000_000);
    ctx.deal.data.fee_bps = 10_001;
    assert_eq!(settle_cash(&mut ctx, SETTLE_AT), Err(ErrorCode::MathOverflow));
    ctx.deal.data.fee_bps = 10_000;
    let effects = settle_cash(&mut ctx, SETTLE_AT).unwrap();
    assert_eq!(
        effects.actions,
        vec![
            from_vault(Side::Short, wallet(LONG), 0),
            from_vault(Side::Short, fee_vault(), 100_000_000),
            from_vault(Side::Long, wallet(LONG), 200_000_000),
            from_vault(Side::Short, wallet(SHORT), 100_000_000),
        ]
    );
}

#[test]
fn settle_cash_inner_pays_profit_fee_and_leftovers() {
    let ds = DealSnapshot {
        deal: key(DEAL),
        market: key(MARKET),
        long: key(LONG),
        short: key(SHORT),
        quote_mint: key(QUOTE),
        receipt_mint: key(RECEIPT),
        strike_price: 100_000_000,
        price_exponent: -6,
        qty_receipt_amount: 10_000_000,
        fee_bps: 100,
        vault_bump: 254,
    };
    assert_eq!(
        settle_cash_inner(&ds, 100_000_000, 500_000_000, 300_000_000),
        Ok(vec![
            from_vault(Side::Short, wallet(LONG), 99_000_000),
            from_vault(Side::Short, fee_vault(), 1_000_000),
            from_vault(Side::Long, wallet(LONG), 500_000_000),
            from_vault(Side::Short, wallet(SHORT), 200_000_000),
        ])
    );
    assert_eq!(
        settle_cash_inner(&ds, -250, 500, 0),
        Ok(vec![
            from_vault(Side::Long, wallet(SHORT), 248),
            from_vault(Side::Long, fee_vault(), 2),
            from_vault(Side::Long, wallet(LONG), 250),
        ])
    );
    assert_eq!(settle_cash_inner(&ds, 0, 0, 0), Ok(vec![]));
    assert_eq!(settle_cash_inner(&ds, 1, 0, 0), Err(ErrorCode::InsufficientBalance));
    assert_eq!(settle_cash_inner(&ds, i128::MAX, 0, u64::MAX), Err(ErrorCode::InsufficientBalance));
    assert_eq!(settle_cash_inner(&ds, i128::MIN, u64::MAX, 0), Err(ErrorCode::InsufficientBalance));
}

#[test]
fn payout_leftovers_returns_what_is_left() {
    let ds = DealSnapshot::from(&deal(SettlementKind::Cash));
    let mut actions: Vec<LedgerAction> = Vec::new();
    payout_leftovers_after_settlement(&mut actions, &ds, Side::Long, 0);
    assert!(actions.is_empty());
    payout_leftovers_after_settlement(&mut actions, &ds, Side::Short, 7);
    payout_leftovers_after_settlement(&mut actions, &ds, Side::Long, 9);
    assert_eq!(
        actions,
        vec![from_vault(Side::Short, wallet(SHORT), 7), from_vault(Side::Long, wallet(LONG), 9)]
    );
}

#[test]
fn physical_settlement_delivers_pays_and_returns_margin() {
    let mut ctx = physical(1_200_000_000, 200_000_000);
    let effects = settle_physical(&mut ctx, SETTLE_AT).unwrap();
    assert_eq!(
        effects.actions,
        vec![
            delivery(10_000_000),
            from_vault(Side::Long, wallet(SHORT), 1_000_000_000),
            from_vault(Side::Long, wallet(LONG), 200_000_000),
            from_vault(Side::Short, wallet(SHORT), 200_000_000),
        ]
    );
    assert_eq!(
        effects.event,
        Some(Event::PhysicalSettled(PhysicalSettled {
            deal: key(DEAL),
            qty_receipt_amount: 10_000_000,
            pay_amount: 1_000_000_000,
        }))
    );
    let mut expected = deal(SettlementKind::Physical);
    expected.data.is_settled = true;
    expected.data.long_margin = 0;
    expected.data.short_margin = 0;
    assert_eq!(ctx.deal, expected);
}

#[test]
fn physical_settlement_that_takes_the_whole_long_vault() {
    let mut ctx = physical(1_000_000_000, 0);
    let effects = settle_physical(&mut ctx, SETTLE_AT).unwrap();
    assert_eq!(
        effects.actions,
        vec![delivery(10_000_000), from_vault(Side::Long, wallet(SHORT), 1_000_000_000)]
    );
}

#[test]
fn physical_settlement_that_the_long_vault_cannot_cover_fails_as_a_whole() {
    let before = physical(999_999_999, 200_000_000);
    let mut ctx = before;
    assert_eq!(settle_physical(&mut ctx, SETTLE_AT), Err(ErrorCode::InsufficientBalance));
    assert_eq!(ctx, before);
    assert_eq!(
        settle_partial_physical(&mut ctx, SETTLE_AT, 10_000_000),
        Err(ErrorCode::InsufficientBalance)
    );
    assert_eq!(ctx, before);
}

#[test]
fn physical_settlement_with_a_payment_beyond_range_fails() {
    let mut ctx = physical(u64::MAX, 0);
    ctx.deal.data.strike_price = u64::MAX;
    ctx.deal.data.price_exponent = 0;
    assert_eq!(settle_physical(&mut ctx, SETTLE_AT), Err(ErrorCode::MathOverflow));
    assert_eq!(settle_partial_physical(&mut ctx, SETTLE_AT, 2), Err(ErrorCode::MathOverflow));
    ctx.deal.data.long_margin = u64::MAX;
    assert!(settle_partial_physical(&mut ctx, SETTLE_AT, 1).is_ok());
    assert_eq!(ctx.deal.data.long_margin, 0);
}

#[test]
fn physical_settlement_is_authorised_by_short() {
    let mut ctx = physical(1_200_000_000, 200_000_000);
    let effects = settle_physical(&mut ctx, SETTLE_AT).unwrap();
    match effects.actions[0] {
        LedgerAction::Transfer { authority, .. } => {
            assert_eq!(authority, Authority::Signer { key: key(SHORT) })
        }
        _ => panic!("the delivery is a transfer"),
    }
    let mut ctx = physical(1_200_000_000, 200_000_000);
    let effects = settle_partial_physical(&mut ctx, SETTLE_AT, 1).unwrap();
    match effects.actions[0] {
        LedgerAction::Transfer { authority, .. } => {
            assert_eq!(authority, Authority::Signer { key: key(SHORT) })
        }
        _ => panic!("the delivery is a transfer"),
    }
}

#[test]
fn physical_settlement_of_a_frozen_deal_fails() {
    let mut ctx = physical(1_200_000_000, 200_000_000);
    ctx.deal.data.is_frozen = true;
    let before = ctx;
    assert_eq!(settle_physical(&mut ctx, SETTLE_AT), Err(ErrorCode::DealFrozen));
    assert_eq!(settle_partial_physical(&mut ctx, SETTLE_AT, 1), Err(ErrorCode::DealFrozen));
    assert_eq!(ctx, before);
}

#[test]
fn physical_settlement_a_second_time_fails() {
    let mut ctx = physical(1_200_000_000, 200_000_000);
    settle_physical(&mut ctx, SETTLE_AT).unwrap();
    let settled = ctx;
    assert_eq!(settle_physical(&mut ctx, SETTLE_AT), Err(ErrorCode::AlreadySettled));
    assert_eq!(settle_partial_physical(&mut ctx, SETTLE_AT, 1), Err(ErrorCode::AlreadySettled));
    assert_eq!(ctx, settled);
}

#[test]
fn physical_settlement_of_a_cash_deal_fails() {
    let mut ctx = physical(1_200_000_000, 200_000_000);
    ctx.deal = deal(SettlementKind::Cash);
    assert_eq!(settle_physical(&mut ctx, SETTLE_AT), Err(ErrorCode::WrongSettlementKind));
    assert_eq!(
        settle_partial_physical(&mut ctx, SETTLE_AT, 1),
        Err(ErrorCode::WrongSettlementKind)
    );
}

#[test]
fn physical_settlement_before_its_time_fails() {
    let mut ctx = physical(1_200_000_000, 200_000_000);
    assert_eq!(settle_physical(&mut ctx, SETTLE_AT - 1), Err(ErrorCode::TooEarlyToSettle));
    assert_eq!(
        settle_partial_physical(&mut ctx, SETTLE_AT - 1, 1),
        Err(ErrorCode::TooEarlyToSettle)
    );
    assert!(!ctx.deal.data.is_settled);
}

#[test]
fn partial_settlement_delivers_a_part_and_keeps_the_deal_open() {
    let mut ctx = physical(1_200_000_000, 200_000_000);
    let effects = settle_partial_physical(&mut ctx, SETTLE_AT, 4_000_000).unwrap();
    assert_eq!(
        effects.actions,
        vec![delivery(4_000_000), from_vault(Side::Long, wallet(SHORT), 400_000_000)]
    );
    assert_eq!(
        effects.event,
        Some(Event::PartialPhysicalSettled(PartialPhysicalSettled {
            deal: key(DEAL),
            amount_receipt: 4_000_000,
            pay_amount: 400_000_000,
            fully_settled: false,
        }))
    );
    let mut expected = deal(SettlementKind::Physical);
    expected.data.qty_receipt_amount = 6_000_000;
    expected.data.long_margin = 800_000_000;
    assert_eq!(ctx.deal, expected);
}

#[test]
fn partial_settlement_in_steps_settles_with_the_last_unit() {
    let mut ctx = physical(1_200_000_000, 200_000_000);
    settle_partial_physical(&mut ctx, SETTLE_AT, 4_000_000).unwrap();
    assert_eq!(ctx.deal.data.long_margin, 800_000_000);
    ctx.long_vault_balance = 800_000_000;
    settle_partial_physical(&mut ctx, SETTLE_AT, 5_999_999).unwrap();
    assert!(!ctx.deal.data.is_settled);
    assert_eq!(ctx.deal.data.qty_receipt_amount, 1);
    assert_eq!(ctx.deal.data.long_margin, 200_000_100);
    ctx.long_vault_balance = 200_000_100;
    assert_eq!(
        settle_partial_physical(&mut ctx, SETTLE_AT, 2),
        Err(ErrorCode::InvalidPartialAmount)
    );
    let effects = settle_partial_physical(&mut ctx, SETTLE_AT, 1).unwrap();
    assert!(ctx.deal.data.is_settled);
    assert_eq!(ctx.deal.data.qty_receipt_amount, 0);
    assert_eq!(ctx.deal.data.long_margin, 200_000_000);
    assert_eq!(ctx.deal.data.short_margin, 200_000_000);
    assert_eq!(
        effects.event,
        Some(Event::PartialPhysicalSettled(PartialPhysicalSettled {
            deal: key(DEAL),
            amount_receipt: 1,
            pay_amount: 100,
            fully_settled: true,
        }))
    );
    assert_eq!(settle_partial_physical(&mut ctx, SETTLE_AT, 1), Err(ErrorCode::AlreadySettled));
    assert_eq!(settle_physical(&mut ctx, SETTLE_AT), Err(ErrorCode::AlreadySettled));
}

#[test]
fn partial_settlement_after_a_part_can_be_finished_in_full() {
    let mut ctx = physical(1_200_000_000, 200_000_000);
    settle_partial_physical(&mut ctx, SETTLE_AT, 4_000_000).unwrap();
    ctx.long_vault_balance = 800_000_000;
    let effects = settle_physical(&mut ctx, SETTLE_AT).unwrap();
    assert_eq!(
        effects.actions,
        vec![
            delivery(6_000_000),
            from_vault(Side::Long, wallet(SHORT), 600_000_000),
            from_vault(Side::Long, wallet(LONG), 200_000_000),
            from_vault(Side::Short, wallet(SHORT), 200_000_000),
        ]
    );
    assert!(ctx.deal.data.is_settled);
}

#[test]
fn partial_settlement_of_everything_delivers_and_pays_as_a_full_one() {
    let mut partial = physical(1_200_000_000, 200_000_000);
    let mut full = physical(1_200_000_000, 200_000_000);
    let by_parts = settle_partial_physical(&mut partial, SETTLE_AT, 10_000_000).unwrap();
    let at_once = settle_physical(&mut full, SETTLE_AT).unwrap();
    assert_eq!(
        by_parts.actions,
        vec![delivery(10_000_000), from_vault(Side::Long, wallet(SHORT), 1_000_000_000)]
    );
    assert_eq!(by_parts.actions[..], at_once.actions[..2]);
    assert!(partial.deal.data.is_settled);
    assert!(full.deal.data.is_settled);
    assert_eq!(partial.deal.data.qty_receipt_amount, 0);
    assert_eq!(partial.deal.data.long_margin, 200_000_000);
    assert_eq!(full.deal.data.long_margin, 0);
    assert_eq!(full.deal.data.short_margin, 0);
    assert_eq!(
        by_parts.event,
        Some(Event::PartialPhysicalSettled(PartialPhysicalSettled {
            deal: key(DEAL),
            amount_receipt: 10_000_000,
            pay_amount: 1_000_000_000,
            fully_settled: true,
        }))
    );
    assert_eq!(
        settle_partial_physical(&mut partial, SETTLE_AT, 1),
        Err(ErrorCode::AlreadySettled)
    );
    assert_eq!(settle_physical(&mut partial, SETTLE_AT), Err(ErrorCode::AlreadySettled));
}

#[test]
fn partial_settlement_refuses_nothing_and_more_than_is_open() {
    let before = physical(1_200_000_000, 200_000_000);
    let mut ctx = before;
    assert_eq!(
        settle_partial_physical(&mut ctx, SETTLE_AT, 0),
        Err(ErrorCode::InvalidPartialAmount)
    );
    assert_eq!(
        settle_partial_physical(&mut ctx, SETTLE_AT, 10_000_001),
        Err(ErrorCode::InvalidPartialAmount)
    );
    assert_eq!(
        settle_partial_physical(&mut ctx, SETTLE_AT, u64::MAX),
        Err(ErrorCode::InvalidPartialAmount)
    );
    assert_eq!(ctx, before);
}

#[test]
fn partial_settlement_keeps_the_record_of_long_in_step_with_its_vault() {
    let mut ctx = physical(1_200_000_000, 200_000_000);
    let mut vault: u64 = 1_200_000_000;
    for amount in [1u64, 4_000_000, 17, 5_999_982] {
        ctx.long_vault_balance = vault;
        let effects = settle_partial_physical(&mut ctx, SETTLE_AT, amount).unwrap();
        vault -= paid_out_of(&effects.actions, vault_of(Side::Long));
        assert_eq!(paid_out_of(&effects.actions, vault_of(Side::Short)), 0);
        assert_eq!(ctx.deal.data.long_margin, vault);
        assert_eq!(ctx.deal.data.short_margin, 200_000_000);
    }
    assert!(ctx.deal.data.is_settled);
    assert_eq!(vault, 200_000_000);
}

#[test]
fn partial_settlement_above_the_recorded_margin_of_long_fails() {
    let mut ctx = physical(1_200_000_000, 200_000_000);
    ctx.deal.data.long_margin = 399_999_999;
    let before = ctx;
    assert_eq!(
        settle_partial_physical(&mut ctx, SETTLE_AT, 4_000_000),
        Err(ErrorCode::MathOverflow)
    );
    assert_eq!(ctx, before);
    ctx.deal.data.long_margin = 400_000_000;
    assert!(settle_partial_physical(&mut ctx, SETTLE_AT, 4_000_000).is_ok());
    assert_eq!(ctx.deal.data.long_margin, 0);
}

#[test]
fn settlement_leaves_no_margin_on_record() {
    let mut cash_deal = cash(90_000_000, 1_200_000_000, 200_000_000);
    settle_cash(&mut cash_deal, SETTLE_AT).unwrap();
    assert_eq!(cash_deal.deal.data.long_margin, 0);
    assert_eq!(cash_deal.deal.data.short_margin, 0);
    let mut delivered = physical(1_200_000_000, 200_000_000);
    let effects = settle_physical(&mut delivered, SETTLE_AT).unwrap();
    assert_eq!(delivered.deal.data.long_margin, 0);
    assert_eq!(delivered.deal.data.short_margin, 0);
    assert_eq!(paid_out_of(&effects.actions, vault_of(Side::Long)), 1_200_000_000);
    assert_eq!(paid_out_of(&effects.actions, vault_of(Side::Short)), 200_000_000);
}
