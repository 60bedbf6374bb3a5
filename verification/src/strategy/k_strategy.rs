//! The bar-driven strategy: a state machine keyed off one instrument's
//! position size. Flat, it enters when the close lies in a price window;
//! holding, it averages down on a drawdown from the cost basis and trims or
//! liquidates above dynamic profit thresholds. Every bar ends with a
//! mark-to-market at the close.

use vstd::prelude::*;
use vstd::string::StringSliceAdditionalSpecFns;
use crate::account::{
    Account, AccountV, Order, OrderV, Side, StockCode, buy_fits, code_of, has_position, index_of,
    lemma_buy_keeps_code, lemma_index_of, lemma_index_of_update, mark_fits, sell_fits, spec_buy,
    spec_get_or_create, spec_mark, spec_release, spec_sell,
};
use crate::model::KLine;

verus! {

/// Scale of the drawdown parameter: basis points per whole.
pub const BPS_SCALE: i64 = 10000;

/// Step added to the stop-profit threshold per completed re-entry buy: two
/// hundredths of a currency unit, in price units of one thousandth.
pub const BUY_TIMES_STEP: i64 = 20;

/// Bars further apart than this start a new trading session, which makes
/// held shares sellable again.
pub const SESSION_GAP_SECONDS: i64 = 12 * 60 * 60;

/// The bar-driven strategy's parameters and mutable state.
#[derive(Debug)]
pub struct KStrategy {
    /// Lower bound of the initial-entry price window.
    buy_price_low: i64,
    /// Upper bound of the initial-entry price window.
    buy_price_high: i64,
    /// Volume of the initial entry, and the unit held back per re-entry.
    init_base_volume: i64,
    /// Drawdown from the cost basis that triggers a re-entry buy, in basis
    /// points.
    add_pos_drawdown_bps: i64,
    /// Initial distance above the cost basis that allows a trimming sell.
    init_stop_profit: i64,
    /// Close price above which the whole sellable holding is sold.
    liquidation_price: i64,
    /// Volume kept when trimming; set on the initial entry.
    dynamic_base_volume: i64,
    /// Completed re-entry buys.
    buy_times: i64,
    /// Current stop-profit distance; reset on liquidation.
    dynamic_stop_profit: i64,
    /// Time of the previous bar.
    last_bar_time: i64,
}

/// Mathematical counterpart of [`KStrategy`].
#[verifier::ext_equal]
pub ghost struct KStrategyV {
    pub buy_price_low: int,
    pub buy_price_high: int,
    pub init_base_volume: int,
    pub add_pos_drawdown_bps: int,
    pub init_stop_profit: int,
    pub liquidation_price: int,
    pub dynamic_base_volume: int,
    pub buy_times: int,
    pub dynamic_stop_profit: int,
    pub last_bar_time: int,
}

impl View for KStrategy {
    type V = KStrategyV;

    closed spec fn view(&self) -> KStrategyV {
        KStrategyV {
            buy_price_low: self.buy_price_low as int,
            buy_price_high: self.buy_price_high as int,
            init_base_volume: self.init_base_volume as int,
            add_pos_drawdown_bps: self.add_pos_drawdown_bps as int,
            init_stop_profit: self.init_stop_profit as int,
            liquidation_price: self.liquidation_price as int,
            dynamic_base_volume: self.dynamic_base_volume as int,
            buy_times: self.buy_times as int,
            dynamic_stop_profit: self.dynamic_stop_profit as int,
            last_bar_time: self.last_bar_time as int,
        }
    }
}

impl KStrategyV {
    /// Strategy well-formedness: the base volume is a positive share count,
    /// the drawdown is a fraction of the cost basis, and the counters are
    /// nonnegative.
    pub open spec fn wf(self) -> bool {
        &&& self.init_base_volume >= 1
        &&& 0 <= self.add_pos_drawdown_bps <= BPS_SCALE
        &&& self.dynamic_base_volume >= 0
        &&& self.buy_times >= 0
    }
}

/// The buy submitted on initial entry.
pub open spec fn initial_order(s: KStrategyV, bar: KLine, code: StockCode) -> OrderV {
    OrderV {
        market_type: '0',
        code: code,
        time: bar.time as int,
        price: bar.close as int,
        volume: s.init_base_volume,
        side: Side::Buy,
    }
}

/// The averaging-down buy: double the currently held volume.
pub open spec fn reentry_order(held_volume: int, bar: KLine, code: StockCode) -> OrderV {
    OrderV {
        market_type: ' ',
        code: code,
        time: bar.time as int,
        price: bar.close as int,
        volume: held_volume * 2,
        side: Side::Buy,
    }
}

/// The sell that liquidates the whole sellable holding.
pub open spec fn liquidation_order(sellable: int, bar: KLine, code: StockCode) -> OrderV {
    OrderV {
        market_type: ' ',
        code: code,
        time: bar.time as int,
        price: bar.close as int,
        volume: sellable,
        side: Side::Sell,
    }
}

/// The trimming sell: back toward the dynamic base, holding back one base
/// unit per completed re-entry.
pub open spec fn trim_order(s: KStrategyV, sellable: int, bar: KLine, code: StockCode) -> OrderV {
    OrderV {
        market_type: ' ',
        code: code,
        time: bar.time as int,
        price: bar.close as int,
        volume: sellable - s.dynamic_base_volume - s.buy_times * s.init_base_volume,
        side: Side::Sell,
    }
}

/// Whether the close has fallen far enough below the cost basis to average
/// down: `close <= cost * (1 - drawdown)`, scaled to basis points.
pub open spec fn reentry_triggered(s: KStrategyV, cost: int, close: int) -> bool {
    close * BPS_SCALE <= cost * (BPS_SCALE - s.add_pos_drawdown_bps)
}

/// The close at or above which a trimming sell is considered: the cost basis
/// plus the dynamic stop-profit, penalized per completed re-entry.
pub open spec fn profit_threshold(s: KStrategyV, cost: int) -> int {
    cost + s.dynamic_stop_profit + BUY_TIMES_STEP * s.buy_times
}

/// Refresh the session availability, then read the held volume: the ledger
/// after making sure a position exists (releasing it whole if a new session
/// began), and that position's volume.
pub open spec fn spec_get_vol(s: KStrategyV, a: AccountV, bar: KLine, code: StockCode) -> (
    AccountV,
    int,
) {
    let a1 = spec_get_or_create(a, code);
    let vol = a1.hold[index_of(a1.hold, code)].volume;
    let a2 = if bar.time - s.last_bar_time > SESSION_GAP_SECONDS {
        spec_release(a1, code)
    } else {
        a1
    };
    (a2, vol)
}

/// Flat-state transition: buy the base volume when the close lies in the
/// entry window; on a fill, the dynamic base becomes the base volume.
pub open spec fn spec_initial_entry(s: KStrategyV, a: AccountV, bar: KLine, code: StockCode) -> (
    KStrategyV,
    AccountV,
) {
    if s.buy_price_low <= bar.close <= s.buy_price_high {
        let r = spec_buy(a, initial_order(s, bar, code));
        if r.1 {
            (KStrategyV { dynamic_base_volume: s.init_base_volume, ..s }, r.0)
        } else {
            (s, r.0)
        }
    } else {
        (s, a)
    }
}

/// Holding-state averaging-down: when the close has dropped by the drawdown
/// fraction from the cost basis, buy double the held volume; a fill counts
/// one re-entry.
pub open spec fn spec_check_reentry(s: KStrategyV, a: AccountV, bar: KLine, code: StockCode) -> (
    KStrategyV,
    AccountV,
) {
    if has_position(a.hold, code) {
        let p = a.hold[index_of(a.hold, code)];
        if reentry_triggered(s, p.cost_price, bar.close as int) {
            let r = spec_buy(a, reentry_order(p.volume, bar, code));
            if r.1 {
                (KStrategyV { buy_times: s.buy_times + 1, ..s }, r.0)
            } else {
                (s, r.0)
            }
        } else {
            (s, a)
        }
    } else {
        (s, a)
    }
}

/// Holding-state exit: above the liquidation price, sell the whole sellable
/// holding and reset the stop-profit; otherwise, at or above the profit
/// threshold and with more sellable than the dynamic base, trim back toward
/// it.
pub open spec fn spec_check_profit(s: KStrategyV, a: AccountV, bar: KLine, code: StockCode) -> (
    KStrategyV,
    AccountV,
) {
    if has_position(a.hold, code) {
        let p = a.hold[index_of(a.hold, code)];
        if bar.close > s.liquidation_price {
            let r = spec_sell(a, liquidation_order(p.available_vol, bar, code));
            if r.1 {
                (KStrategyV { dynamic_stop_profit: s.init_stop_profit, ..s }, r.0)
            } else {
                (s, r.0)
            }
        } else if bar.close >= profit_threshold(s, p.cost_price) {
            if p.available_vol > s.dynamic_base_volume {
                let r = spec_sell(a, trim_order(s, p.available_vol, bar, code));
                (s, r.0)
            } else {
                (s, a)
            }
        } else {
            (s, a)
        }
    } else {
        (s, a)
    }
}

/// One full bar step: refresh availability, take the flat or holding
/// transitions, mark to the close, and remember the bar time.
pub open spec fn spec_process_bar(s: KStrategyV, a: AccountV, bar: KLine, code: StockCode) -> (
    KStrategyV,
    AccountV,
) {
    let ga = spec_get_vol(s, a, bar, code);
    let r = if ga.1 == 0 {
        spec_initial_entry(s, ga.0, bar, code)
    } else {
        let r1 = spec_check_reentry(s, ga.0, bar, code);
        spec_check_profit(r1.0, r1.1, bar, code)
    };
    let a3 = spec_mark(r.1, code, bar.close as int);
    (KStrategyV { last_bar_time: bar.time as int, ..r.0 }, a3)
}

/// Machine-width bounds the initial-entry stage needs.
pub open spec fn initial_entry_fits(s: KStrategyV, a: AccountV, bar: KLine, code: StockCode) -> bool {
    s.buy_price_low <= bar.close <= s.buy_price_high ==> buy_fits(a, initial_order(s, bar, code))
}

/// Machine-width bounds the re-entry stage needs.
pub open spec fn reentry_fits(s: KStrategyV, a: AccountV, bar: KLine, code: StockCode) -> bool {
    has_position(a.hold, code) ==> {
        let p = a.hold[index_of(a.hold, code)];
        &&& bar.close * BPS_SCALE <= i64::MAX
        &&& i64::MIN <= p.cost_price * (BPS_SCALE - s.add_pos_drawdown_bps) <= i64::MAX
        &&& (reentry_triggered(s, p.cost_price, bar.close as int) ==> {
            &&& p.volume * 2 <= i64::MAX
            &&& buy_fits(a, reentry_order(p.volume, bar, code))
            &&& (spec_buy(a, reentry_order(p.volume, bar, code)).1 ==> s.buy_times + 1
                <= i64::MAX)
        })
    }
}

/// Machine-width bounds the profit stage needs.
pub open spec fn profit_fits(s: KStrategyV, a: AccountV, bar: KLine, code: StockCode) -> bool {
    has_position(a.hold, code) ==> {
        let p = a.hold[index_of(a.hold, code)];
        if bar.close > s.liquidation_price {
            sell_fits(a, liquidation_order(p.available_vol, bar, code))
        } else {
            &&& i64::MIN <= BUY_TIMES_STEP * s.buy_times <= i64::MAX
            &&& i64::MIN <= p.cost_price + s.dynamic_stop_profit <= i64::MAX
            &&& i64::MIN <= profit_threshold(s, p.cost_price) <= i64::MAX
            &&& (bar.close >= profit_threshold(s, p.cost_price) && p.available_vol
                > s.dynamic_base_volume ==> {
                &&& i64::MIN <= s.buy_times * s.init_base_volume <= i64::MAX
                &&& sell_fits(a, trim_order(s, p.available_vol, bar, code))
            })
        }
    }
}

/// Machine-width bounds one whole bar step needs, threaded through the
/// intermediate ledgers the step produces.
pub open spec fn process_bar_fits(s: KStrategyV, a: AccountV, bar: KLine, code: StockCode) -> bool {
    let ga = spec_get_vol(s, a, bar, code);
    &&& i64::MIN <= bar.time - s.last_bar_time <= i64::MAX
    &&& (ga.1 == 0 ==> initial_entry_fits(s, ga.0, bar, code))
    &&& (ga.1 != 0 ==> {
        &&& reentry_fits(s, ga.0, bar, code)
        &&& ({
            let r1 = spec_check_reentry(s, ga.0, bar, code);
            profit_fits(r1.0, r1.1, bar, code)
        })
    })
    &&& ({
        let r = if ga.1 == 0 {
            spec_initial_entry(s, ga.0, bar, code)
        } else {
            let r1 = spec_check_reentry(s, ga.0, bar, code);
            spec_check_profit(r1.0, r1.1, bar, code)
        };
        mark_fits(r.1, code, bar.close as int)
    })
}

impl KStrategy {
    /// A fresh strategy over the given parameters: no bars seen, no
    /// re-entries, the stop-profit at its initial value, and no dynamic base
    /// until the initial entry fills.
    pub fn new(
        buy_price_low: i64,
        buy_price_high: i64,
        init_base_volume: i64,
        add_pos_drawdown_bps: i64,
        init_stop_profit: i64,
        liquidation_price: i64,
    ) -> (s: Self)
        requires
            init_base_volume >= 1,
            0 <= add_pos_drawdown_bps <= BPS_SCALE,
        ensures
            s@ == (KStrategyV {
                buy_price_low: buy_price_low as int,
                buy_price_high: buy_price_high as int,
                init_base_volume: init_base_volume as int,
                add_pos_drawdown_bps: add_pos_drawdown_bps as int,
                init_stop_profit: init_stop_profit as int,
                liquidation_price: liquidation_price as int,
                dynamic_base_volume: 0,
                buy_times: 0,
                dynamic_stop_profit: init_stop_profit as int,
                last_bar_time: 0,
            }),
            s@.wf(),
    {
        KStrategy {
            buy_price_low,
            buy_price_high,
            init_base_volume,
            add_pos_drawdown_bps,
            init_stop_profit,
            liquidation_price,
            dynamic_base_volume: 0,
            buy_times: 0,
            dynamic_stop_profit: init_stop_profit,
            last_bar_time: 0,
        }
    }

    /// Make sure a position exists, refresh its session availability, and
    /// read its volume.
    fn get_vol(&self, bar: &KLine, code: StockCode, account: &mut Account) -> (v: i64)
        requires
            old(account)@.wf(),
            i64::MIN <= bar.time - self@.last_bar_time <= i64::MAX,
        ensures
            final(account)@ == spec_get_vol(self@, old(account)@, *bar, code).0,
            v == spec_get_vol(self@, old(account)@, *bar, code).1,
            final(account)@.wf(),
            has_position(final(account)@.hold, code),
            v == final(account)@.hold[index_of(final(account)@.hold, code)].volume,
            v >= 0,
    {
        let p = account.get_position(code);
        proof {
            lemma_index_of(account@.hold, code);
        }
        if bar.time - self.last_bar_time > SESSION_GAP_SECONDS {
            proof {
                let a1 = account@;
                let i = index_of(a1.hold, code);
                lemma_index_of_update(a1.hold, i, spec_release(a1, code).hold[i], code);
            }
            account.settle(code);
        }
        p.volume
    }

    /// Flat-state step: enter with the base volume when the close lies in
    /// the entry window.
    fn initial_entry(&mut self, bar: &KLine, code: StockCode, account: &mut Account)
        requires
            old(self)@.wf(),
            old(account)@.wf(),
            bar.close >= 0,
            initial_entry_fits(old(self)@, old(account)@, *bar, code),
        ensures
            final(self)@ == spec_initial_entry(old(self)@, old(account)@, *bar, code).0,
            final(account)@ == spec_initial_entry(old(self)@, old(account)@, *bar, code).1,
            final(self)@.wf(),
            final(account)@.wf(),
    {
        let price = bar.close;
        if self.buy_price_low <= price && price <= self.buy_price_high {
            let order = Order {
                market_type: '0',
                code: code,
                time: bar.time,
                price: price,
                volume: self.init_base_volume,
                side: Side::Buy,
            };
            if account.buy(&order) {
                self.dynamic_base_volume = self.init_base_volume;
            }
        }
    }

    /// Holding-state averaging-down step: on a deep enough drawdown from the
    /// cost basis, buy double the held volume.
    fn check_reentry(&mut self, bar: &KLine, code: StockCode, account: &mut Account)
        requires
            old(self)@.wf(),
            old(account)@.wf(),
            bar.close >= 0,
            has_position(old(account)@.hold, code),
            old(account)@.hold[index_of(old(account)@.hold, code)].volume > 0,
            reentry_fits(old(self)@, old(account)@, *bar, code),
        ensures
            final(self)@ == spec_check_reentry(old(self)@, old(account)@, *bar, code).0,
            final(account)@ == spec_check_reentry(old(self)@, old(account)@, *bar, code).1,
            final(self)@.wf(),
            final(account)@.wf(),
    {
        let p = account.get_position(code);
        proof {
            lemma_index_of(account@.hold, code);
        }
        let lhs = bar.close * BPS_SCALE;
        let rhs = p.cost_price * (BPS_SCALE - self.add_pos_drawdown_bps);
        if lhs <= rhs {
            let buy_volume = p.volume * 2;
            let order = Order {
                market_type: ' ',
                code: code,
                time: bar.time,
                price: bar.close,
                volume: buy_volume,
                side: Side::Buy,
            };
            if account.buy(&order) {
                self.buy_times = self.buy_times + 1;
            }
        }
    }

    /// Holding-state exit step: liquidate above the liquidation price, else
    /// trim back toward the dynamic base above the profit threshold.
    fn check_profit(&mut self, bar: &KLine, code: StockCode, account: &mut Account)
        requires
            old(self)@.wf(),
            old(account)@.wf(),
            bar.close >= 0,
            has_position(old(account)@.hold, code),
            profit_fits(old(self)@, old(account)@, *bar, code),
        ensures
            final(self)@ == spec_check_profit(old(self)@, old(account)@, *bar, code).0,
            final(account)@ == spec_check_profit(old(self)@, old(account)@, *bar, code).1,
            final(self)@.wf(),
            final(account)@.wf(),
    {
        let p = account.get_position(code);
        proof {
            lemma_index_of(account@.hold, code);
        }
        let sellable = p.available_vol;
        let cost = p.cost_price;
        if bar.close > self.liquidation_price {
            let order = Order {
                market_type: ' ',
                code: code,
                time: bar.time,
                price: bar.close,
                volume: sellable,
                side: Side::Sell,
            };
            if account.sell(&order) {
                self.dynamic_stop_profit = self.init_stop_profit;
            }
        } else {
            let step = BUY_TIMES_STEP * self.buy_times;
            let base_threshold = cost + self.dynamic_stop_profit;
            let threshold = base_threshold + step;
            if bar.close >= threshold {
                if sellable > self.dynamic_base_volume {
                    let reserve = self.buy_times * self.init_base_volume;
                    let above_base = sellable - self.dynamic_base_volume;
                    let sell_volume = above_base - reserve;
                    let order = Order {
                        market_type: ' ',
                        code: code,
                        time: bar.time,
                        price: bar.close,
                        volume: sell_volume,
                        side: Side::Sell,
                    };
                    account.sell(&order);
                }
            }
        }
    }

    /// Feed one bar to the strategy: refresh session availability, take the
    /// flat or holding transitions against the ledger, mark the code to the
    /// close, and remember the bar time.
    pub fn process_bar(&mut self, bar: &KLine, code: &str, account: &mut Account)
        requires
            old(self)@.wf(),
            old(account)@.wf(),
            code.spec_bytes().len() <= 8,
            bar.close >= 0,
            process_bar_fits(old(self)@, old(account)@, *bar, code_of(code.spec_bytes())),
        ensures
            final(self)@ == spec_process_bar(
                old(self)@,
                old(account)@,
                *bar,
                code_of(code.spec_bytes()),
            ).0,
            final(account)@ == spec_process_bar(
                old(self)@,
                old(account)@,
                *bar,
                code_of(code.spec_bytes()),
            ).1,
            final(self)@.wf(),
            final(account)@.wf(),
    {
        let ghost s0 = self@;
        let ghost a0 = account@;
        let ghost sc_spec = code_of(code.spec_bytes());
        let sc = StockCode::from(code);
        let volume = self.get_vol(bar, sc, account);
        if volume == 0 {
            self.initial_entry(bar, sc, account);
        } else {
            proof {
                lemma_index_of(account@.hold, sc);
            }
            self.check_reentry(bar, sc, account);
            proof {
                let ga = spec_get_vol(s0, a0, *bar, sc_spec);
                let p = ga.0.hold[index_of(ga.0.hold, sc_spec)];
                if reentry_triggered(s0, p.cost_price, bar.close as int) {
                    lemma_buy_keeps_code(ga.0, reentry_order(p.volume, *bar, sc_spec));
                }
            }
            self.check_profit(bar, sc, account);
        }
        account.on_price_change(code, bar.close);
        self.last_bar_time = bar.time;
        proof {
            assert(self@ =~= spec_process_bar(s0, a0, *bar, sc_spec).0);
        }
    }
}

} // verus!
