//! Ledger behavior: buys, sells, rejections, mark-to-market, and the cash
//! conservation across positions. Prices and cash are in thousandths of a
//! currency unit: 1.00 is written 1000.

use backtest::account::{Account, Order, Side, StockCode};

fn fresh_account(cash: i64) -> Account {
    let mut account = Account::default();
    account.balance = cash;
    account.available_balance = cash;
    account
}

fn buy_order(code: &str, time: i64, price: i64, volume: i64) -> Order {
    Order {
        market_type: '0',
        code: StockCode::from(code),
        time,
        price,
        volume,
        side: Side::Buy,
    }
}

fn sell_order(code: &str, time: i64, price: i64, volume: i64) -> Order {
    Order {
        market_type: '0',
        code: StockCode::from(code),
        time,
        price,
        volume,
        side: Side::Sell,
    }
}

#[test]
fn test_account() {
    let mut account = fresh_account(1_000_000_000);
    let code = "600795";

    let order = buy_order(code, 1, 1000, 100);
    assert!(account.buy(&order));
    account.on_price_change(code, 1000);

    assert_eq!(account.balance, 1_000_000_000);
    assert_eq!(account.available_balance, 1_000_000_000 - 100_000);
    assert_eq!(account.portfolio_value, 100_000);
    assert_eq!(account.profit, 0);

    let pos = account.get_position(StockCode::from(code));
    assert_eq!(pos.volume, 100);
    assert_eq!(pos.current_price, 1000);
    assert_eq!(pos.market_value, 100_000);
    assert_eq!(pos.cost_price, 1000);

    let code2 = "601111";
    let order2 = buy_order(code2, 1, 1000, 200);
    assert!(account.buy(&order2));
    account.on_price_change(code2, 1000);

    assert_eq!(account.balance, 1_000_000_000);
    assert_eq!(account.available_balance, 1_000_000_000 - 300_000);
    assert_eq!(account.portfolio_value, 300_000);
    assert_eq!(account.profit, 0);

    let pos2 = account.get_position(StockCode::from(code2));
    assert_eq!(pos2.volume, 200);
    assert_eq!(pos2.current_price, 1000);
    assert_eq!(pos2.market_value, 200_000);
    assert_eq!(pos2.cost_price, 1000);
}

#[test]
fn buy_insufficient_funds_changes_nothing() {
    let mut account = fresh_account(50_000);
    let code = "600795";
    // Seed one successful buy so the rejected one must leave history intact.
    assert!(account.buy(&buy_order(code, 1, 1000, 10)));
    let avail_before = account.available_balance;
    let hold_before: Vec<_> = account.hold.iter().map(|p| (p.code, p.volume, p.available_vol, p.cost_price)).collect();
    let txs_before = account.transactions.len();

    // turnover 100_000 > 40_000 available
    assert!(!account.buy(&buy_order(code, 2, 1000, 100)));

    assert_eq!(account.available_balance, avail_before);
    assert_eq!(account.transactions.len(), txs_before);
    let hold_after: Vec<_> = account.hold.iter().map(|p| (p.code, p.volume, p.available_vol, p.cost_price)).collect();
    assert_eq!(hold_before, hold_after);
}

#[test]
fn sell_rejections_change_nothing() {
    let mut account = fresh_account(1_000_000);
    let code = "600795";

    // No position at all.
    assert!(!account.sell(&sell_order(code, 1, 1000, 10)));
    assert_eq!(account.transactions.len(), 0);

    assert!(account.buy(&buy_order(code, 1, 1000, 100)));
    let avail_before = account.available_balance;

    // Nonpositive volume.
    assert!(!account.sell(&sell_order(code, 2, 1000, 0)));
    // Same-session shares are not yet sellable: available volume is still 0.
    assert!(!account.sell(&sell_order(code, 2, 1000, 100)));

    // Next session: the holding becomes sellable, but not more than held.
    account.settle(StockCode::from(code));
    assert!(!account.sell(&sell_order(code, 3, 1000, 101)));

    assert_eq!(account.available_balance, avail_before);
    assert_eq!(account.transactions.len(), 1);
    assert_eq!(account.get_position(StockCode::from(code)).volume, 100);
}

#[test]
fn cost_basis_formulas_are_exact() {
    let mut account = fresh_account(1_000_000_000);
    let code = "600795";

    assert!(account.buy(&buy_order(code, 1, 1000, 100)));
    assert_eq!(account.get_position(StockCode::from(code)).cost_price, 1000);

    // Averaging up: (100*1000 + 100*2000) / 200 = 1500.
    assert!(account.buy(&buy_order(code, 2, 2000, 100)));
    let pos = account.get_position(StockCode::from(code));
    assert_eq!(pos.volume, 200);
    assert_eq!(pos.cost_price, 1500);
    // Bought shares are not sellable within the session.
    assert_eq!(pos.available_vol, 0);

    account.settle(StockCode::from(code));

    // Partial sell at a profit: (200*1500 - 50*3000) / 150 = 1000.
    let avail_before = account.available_balance;
    assert!(account.sell(&sell_order(code, 3, 3000, 50)));
    assert_eq!(account.available_balance, avail_before + 150_000);
    let pos = account.get_position(StockCode::from(code));
    assert_eq!(pos.volume, 150);
    assert_eq!(pos.available_vol, 150);
    assert_eq!(pos.cost_price, 1000);

    // Full liquidation resets the cost basis to exactly zero.
    assert!(account.sell(&sell_order(code, 4, 1000, 150)));
    let pos = account.get_position(StockCode::from(code));
    assert_eq!(pos.volume, 0);
    assert_eq!(pos.cost_price, 0);

    // The record mirrors each fill: +100, +100, -50, -150.
    let volumes: Vec<i64> = account.transactions.iter().map(|t| t.volume).collect();
    assert_eq!(volumes, vec![100, 100, -50, -150]);
    assert_eq!(account.transactions[2].remain_vol, 150);
    assert_eq!(account.transactions[2].remain_cost, 1000);
    assert_eq!(account.transactions[3].remain_vol, 0);
    assert_eq!(account.transactions[3].remain_cost, 0);
    assert!(matches!(account.transactions[0].side, Side::Buy));
    assert!(matches!(account.transactions[3].side, Side::Sell));
}

#[test]
fn mark_to_market_keeps_balance_identity() {
    let mut account = fresh_account(1_000_000_000);
    let code = "600795";
    assert!(account.buy(&buy_order(code, 1, 1000, 100)));

    account.on_price_change(code, 1200);
    assert_eq!(account.portfolio_value, 120_000);
    assert_eq!(
        account.balance,
        account.available_balance + account.freeze_balance + account.portfolio_value
    );

    account.on_price_change(code, 800);
    assert_eq!(account.portfolio_value, 80_000);
    assert_eq!(
        account.balance,
        account.available_balance + account.freeze_balance + account.portfolio_value
    );

    // Marking an unknown code is a silent no-op.
    let balance_before = account.balance;
    account.on_price_change("601111", 5000);
    assert_eq!(account.balance, balance_before);
    assert_eq!(account.portfolio_value, 80_000);
}

#[test]
fn get_position_is_idempotent_and_zeroed() {
    let mut account = fresh_account(0);
    let code = StockCode::from("600795");
    let p1 = account.get_position(code);
    assert_eq!(p1.volume, 0);
    assert_eq!(p1.available_vol, 0);
    assert_eq!(p1.cost_price, 0);
    assert_eq!(p1.market_value, 0);
    let _ = account.get_position(code);
    assert_eq!(account.hold.len(), 1);
}

#[test]
fn cancel_order_has_no_effect() {
    let mut account = fresh_account(1_000_000);
    assert!(account.cancel_order().is_none());
    assert_eq!(account.available_balance, 1_000_000);
    assert_eq!(account.transactions.len(), 0);
}

#[test]
fn stock_codes_compare_by_bytes() {
    assert_eq!(StockCode::from("600795"), StockCode::from("600795"));
    assert_ne!(StockCode::from("600795"), StockCode::from("601111"));
    assert_ne!(StockCode::from("600795"), StockCode::from(""));
}
