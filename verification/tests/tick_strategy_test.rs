//! Tick-driven strategy behavior: depth and spread gates, long and short
//! openings, and the cooldown between trades. Prices are in thousandths:
//! 10.01 is written 10010.

use backtest::account::{Account, Order, Side, StockCode};
use backtest::model::TickData;
use backtest::strategy::tick_strategy::TickStrategy;

fn fresh_account(cash: i64) -> Account {
    let mut account = Account::default();
    account.balance = cash;
    account.available_balance = cash;
    account
}

fn tick(time: i64, last_price: i64, bid1_price: i64, bid1_volume: i64, ask1_price: i64, ask1_volume: i64) -> TickData {
    TickData {
        time,
        last_price,
        volume: 100_000,
        ask1_price,
        ask1_volume,
        ask2_price: ask1_price + 10,
        ask2_volume: 2500,
        ask3_price: ask1_price + 20,
        ask3_volume: 3500,
        ask4_price: ask1_price + 30,
        ask4_volume: 4500,
        ask5_price: ask1_price + 40,
        ask5_volume: 5500,
        bid1_price,
        bid1_volume,
        bid2_price: bid1_price - 10,
        bid2_volume: 3000,
        bid3_price: bid1_price - 20,
        bid3_volume: 4000,
        bid4_price: bid1_price - 30,
        bid4_volume: 5000,
        bid5_price: bid1_price - 40,
        bid5_volume: 6000,
    }
}

#[test]
fn test_tick_strategy() {
    let mut account = fresh_account(1_000_000_000);
    let code = "000001";
    // min_spread 0.01, min depth 1000, trade volume 2000, stop-loss 0.03,
    // take-profit 0.05, cooldown 3 s.
    let mut strategy = TickStrategy::new(10, 1000, 2000, 30, 50, 3);

    // A wide quote: spread 0.02 exceeds the 0.01 bound, so no
    // trade happens.
    let t = tick(1_625_097_600, 10_000, 9_990, 2000, 10_010, 1500);
    strategy.process_tick(&t, code, &mut account);

    assert!(account.transactions.is_empty());
    assert!(account.hold.is_empty());
    assert_eq!(account.available_balance, 1_000_000_000);
}

#[test]
fn opens_long_on_tight_spread_and_rising_bid() {
    let mut account = fresh_account(1_000_000_000);
    let code = "000001";
    let mut strategy = TickStrategy::new(10, 1000, 2000, 30, 50, 3);

    // Spread 0.005 <= 0.01, bid above the last price, ask depth above the
    // minimum: buy the trade volume at the ask.
    let t = tick(1_625_097_600, 10_000, 10_005, 1500, 10_010, 2000);
    strategy.process_tick(&t, code, &mut account);

    assert_eq!(account.transactions.len(), 1);
    let fill = &account.transactions[0];
    assert!(matches!(fill.side, Side::Buy));
    assert_eq!(fill.volume, 2000);
    assert_eq!(fill.price, 10_010);
    assert_eq!(account.available_balance, 1_000_000_000 - 2000 * 10_010);
}

#[test]
fn opens_short_leg_on_falling_ask() {
    let mut account = fresh_account(1_000_000_000);
    let code = "000001";
    let mut strategy = TickStrategy::new(10, 1000, 2000, 30, 50, 3);

    // Ask below the last price with bid depth behind it: the short entry is
    // recorded through a buy at the bid; no sell leg exists for shorts.
    let t = tick(1_625_097_600, 10_000, 9_990, 2000, 9_995, 1500);
    strategy.process_tick(&t, code, &mut account);

    assert_eq!(account.transactions.len(), 1);
    let fill = &account.transactions[0];
    assert!(matches!(fill.side, Side::Buy));
    assert_eq!(fill.volume, 2000);
    assert_eq!(fill.price, 9_990);
}

#[test]
fn cooldown_ignores_the_second_tick() {
    let mut account = fresh_account(1_000_000_000);
    let code = "000001";
    let mut strategy = TickStrategy::new(10, 1000, 2000, 30, 50, 3);

    // First tick trades and stamps the trade time.
    let t1 = tick(1_625_097_600, 10_000, 10_005, 1500, 10_010, 2000);
    strategy.process_tick(&t1, code, &mut account);
    assert_eq!(account.transactions.len(), 1);
    let avail_after_open = account.available_balance;

    // One second later, deep in the cooldown: ignored no matter how the
    // quote looks, even one that would otherwise hit the stop-loss.
    let t2 = tick(1_625_097_601, 10_000, 9_900, 9000, 9_905, 9000);
    strategy.process_tick(&t2, code, &mut account);

    assert_eq!(account.transactions.len(), 1);
    assert_eq!(account.available_balance, avail_after_open);
    let hold: Vec<_> = account.hold.iter().map(|p| (p.volume, p.available_vol)).collect();
    assert_eq!(hold, vec![(2000, 0)]);
}

#[test]
fn stop_loss_closes_a_long_when_shares_are_sellable() {
    let mut account = fresh_account(1_000_000_000);
    let code = "000001";
    let mut strategy = TickStrategy::new(10, 1000, 2000, 30, 50, 3);

    // Seed a settled holding so the close's sell has sellable shares: the
    // strategy's own buys stay locked for the session.
    let seed = Order {
        market_type: '0',
        code: StockCode::from(code),
        time: 1_625_097_000,
        price: 10_000,
        volume: 5000,
        side: Side::Buy,
    };
    assert!(account.buy(&seed));
    account.settle(StockCode::from(code));

    // Open a long at 10.010.
    let t1 = tick(1_625_097_600, 10_000, 10_005, 1500, 10_010, 2000);
    strategy.process_tick(&t1, code, &mut account);
    assert_eq!(account.transactions.len(), 2);

    // Past the cooldown, the bid breaches 10.010 - 0.030: the whole traded
    // volume is sold at the bid.
    let t2 = tick(1_625_097_605, 9_980, 9_975, 2000, 9_980, 2000);
    strategy.process_tick(&t2, code, &mut account);

    assert_eq!(account.transactions.len(), 3);
    let fill = &account.transactions[2];
    assert!(matches!(fill.side, Side::Sell));
    assert_eq!(fill.volume, -2000);
    assert_eq!(fill.price, 9_975);
    assert_eq!(fill.remain_vol, 5000);
    // Cost basis: buys gave (5000*10000 + 2000*10010)/7000 = 10002; the
    // close leaves (7000*10002 - 2000*9975)/5000 = 10012.
    assert_eq!(fill.remain_cost, 10_012);
}

#[test]
fn close_attempt_without_sellable_shares_is_rejected() {
    let mut account = fresh_account(1_000_000_000);
    let code = "000001";
    let mut strategy = TickStrategy::new(10, 1000, 2000, 30, 50, 3);

    // Open a long; the bought shares stay locked for the session.
    let t1 = tick(1_625_097_600, 10_000, 10_005, 1500, 10_010, 2000);
    strategy.process_tick(&t1, code, &mut account);
    assert_eq!(account.transactions.len(), 1);

    // Past the cooldown and through the stop-loss, but nothing is sellable:
    // the sell is rejected and the ledger stays put.
    let t2 = tick(1_625_097_605, 9_980, 9_975, 2000, 9_980, 2000);
    strategy.process_tick(&t2, code, &mut account);

    assert_eq!(account.transactions.len(), 1);
    let hold: Vec<_> = account.hold.iter().map(|p| (p.volume, p.available_vol)).collect();
    assert_eq!(hold, vec![(2000, 0)]);
}

#[test]
fn shallow_depth_ignores_the_tick() {
    let mut account = fresh_account(1_000_000_000);
    let code = "000001";
    let mut strategy = TickStrategy::new(10, 1000, 2000, 30, 50, 3);

    // Perfect spread and momentum, but the bid queue is too thin.
    let t = tick(1_625_097_600, 10_000, 10_005, 900, 10_010, 2000);
    strategy.process_tick(&t, code, &mut account);

    assert!(account.transactions.is_empty());
}
