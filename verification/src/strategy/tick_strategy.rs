//! The tick-driven strategy: a state machine over best-bid/ask depth and
//! spread. Flat, it opens on a tight spread with depth behind the move —
//! long at the ask, or "short" recorded as a buy at the bid with a negative
//! intended position; the sell leg of a true short is left out. Holding, it
//! closes fully on a stop-loss or take-profit against the entry price. A
//! cooldown rate-limits trading.

use vstd::prelude::*;
use vstd::string::StringSliceAdditionalSpecFns;
use crate::account::{
    Account, AccountV, Order, OrderV, Side, StockCode, buy_fits, code_of, sell_fits, spec_buy,
    spec_sell,
};
use crate::model::TickData;

verus! {

/// The tick-driven strategy's parameters and mutable state.
#[derive(Debug)]
pub struct TickStrategy {
    /// Widest bid/ask spread that still counts as an opportunity.
    min_spread: i64,
    /// Depth both best quotes must carry for a tick to be considered.
    min_volume: i64,
    /// Shares moved per opening trade.
    trade_volume: i64,
    /// Adverse move from the entry price that closes the position.
    stop_loss_points: i64,
    /// Favorable move from the entry price that closes the position.
    take_profit_points: i64,
    /// Price of the last opening trade.
    last_trade_price: i64,
    /// Time of the last completed trade.
    last_trade_time: i64,
    /// Signed intended position: positive long, negative short, zero flat.
    position: i64,
    /// Seconds that must pass after a trade before the next one.
    cooldown_period: i64,
}

/// Mathematical counterpart of [`TickStrategy`].
#[verifier::ext_equal]
pub ghost struct TickStrategyV {
    pub min_spread: int,
    pub min_volume: int,
    pub trade_volume: int,
    pub stop_loss_points: int,
    pub take_profit_points: int,
    pub last_trade_price: int,
    pub last_trade_time: int,
    pub position: int,
    pub cooldown_period: int,
}

impl View for TickStrategy {
    type V = TickStrategyV;

    closed spec fn view(&self) -> TickStrategyV {
        TickStrategyV {
            min_spread: self.min_spread as int,
            min_volume: self.min_volume as int,
            trade_volume: self.trade_volume as int,
            stop_loss_points: self.stop_loss_points as int,
            take_profit_points: self.take_profit_points as int,
            last_trade_price: self.last_trade_price as int,
            last_trade_time: self.last_trade_time as int,
            position: self.position as int,
            cooldown_period: self.cooldown_period as int,
        }
    }
}

impl TickStrategyV {
    /// Strategy well-formedness: the trade volume is a positive share count
    /// and the position is flat or exactly one trade volume either way.
    pub open spec fn wf(self) -> bool {
        &&& self.trade_volume >= 1
        &&& (self.position == 0 || self.position == self.trade_volume || self.position
            == -self.trade_volume)
    }
}

/// The buy that opens a long position, at the best ask.
pub open spec fn long_order(s: TickStrategyV, t: TickData, code: StockCode) -> OrderV {
    OrderV {
        market_type: ' ',
        code: code,
        time: t.time as int,
        price: t.ask1_price as int,
        volume: s.trade_volume,
        side: Side::Buy,
    }
}

/// The buy that records an intended short position, at the best bid.
pub open spec fn short_order(s: TickStrategyV, t: TickData, code: StockCode) -> OrderV {
    OrderV {
        market_type: ' ',
        code: code,
        time: t.time as int,
        price: t.bid1_price as int,
        volume: s.trade_volume,
        side: Side::Buy,
    }
}

/// The sell that closes the whole position: at the bid for a long, at the
/// ask for a short.
pub open spec fn close_order(s: TickStrategyV, t: TickData, code: StockCode) -> OrderV {
    OrderV {
        market_type: ' ',
        code: code,
        time: t.time as int,
        price: if s.position > 0 {
            t.bid1_price as int
        } else {
            t.ask1_price as int
        },
        volume: if s.position > 0 {
            s.position
        } else {
            -s.position
        },
        side: Side::Sell,
    }
}

/// Opening a long: on a fill, the position and the entry price and time are
/// recorded.
pub open spec fn spec_open_long(s: TickStrategyV, a: AccountV, t: TickData, code: StockCode) -> (
    TickStrategyV,
    AccountV,
) {
    let r = spec_buy(a, long_order(s, t, code));
    if r.1 {
        (
            TickStrategyV {
                position: s.trade_volume,
                last_trade_price: t.ask1_price as int,
                last_trade_time: t.time as int,
                ..s
            },
            r.0,
        )
    } else {
        (s, r.0)
    }
}

/// Opening a short: the buy leg at the bid, recorded as a negative intended
/// position.
pub open spec fn spec_open_short(s: TickStrategyV, a: AccountV, t: TickData, code: StockCode) -> (
    TickStrategyV,
    AccountV,
) {
    let r = spec_buy(a, short_order(s, t, code));
    if r.1 {
        (
            TickStrategyV {
                position: -s.trade_volume,
                last_trade_price: t.bid1_price as int,
                last_trade_time: t.time as int,
                ..s
            },
            r.0,
        )
    } else {
        (s, r.0)
    }
}

/// Whether the held position has hit its stop-loss or take-profit level,
/// judged at the bid for a long and at the ask for a short.
pub open spec fn close_triggered(s: TickStrategyV, t: TickData) -> bool {
    if s.position > 0 {
        t.bid1_price <= s.last_trade_price - s.stop_loss_points || t.bid1_price
            >= s.last_trade_price + s.take_profit_points
    } else if s.position < 0 {
        t.ask1_price >= s.last_trade_price + s.stop_loss_points || t.ask1_price
            <= s.last_trade_price - s.take_profit_points
    } else {
        false
    }
}

/// Closing the whole position with one sell: on a fill, the strategy goes
/// flat and the trade time is recorded.
pub open spec fn spec_close_position(s: TickStrategyV, a: AccountV, t: TickData, code: StockCode) -> (
    TickStrategyV,
    AccountV,
) {
    let r = spec_sell(a, close_order(s, t, code));
    if r.1 {
        (TickStrategyV { position: 0, last_trade_time: t.time as int, ..s }, r.0)
    } else {
        (s, r.0)
    }
}

/// Holding-state step: close when a stop level is hit, otherwise wait.
pub open spec fn spec_check_close(s: TickStrategyV, a: AccountV, t: TickData, code: StockCode) -> (
    TickStrategyV,
    AccountV,
) {
    if close_triggered(s, t) {
        spec_close_position(s, a, t, code)
    } else {
        (s, a)
    }
}

/// One full tick step: ignore the tick within the cooldown or without depth
/// behind both best quotes; flat, open long or short on a tight spread with
/// the move's side deep enough; holding, check the stop levels.
pub open spec fn spec_process_tick(s: TickStrategyV, a: AccountV, t: TickData, code: StockCode) -> (
    TickStrategyV,
    AccountV,
) {
    if t.time - s.last_trade_time < s.cooldown_period {
        (s, a)
    } else if t.bid1_volume < s.min_volume || t.ask1_volume < s.min_volume {
        (s, a)
    } else if s.position == 0 {
        if t.ask1_price - t.bid1_price <= s.min_spread {
            if t.bid1_price > t.last_price && t.ask1_volume > s.min_volume {
                spec_open_long(s, a, t, code)
            } else if t.ask1_price < t.last_price && t.bid1_volume > s.min_volume {
                spec_open_short(s, a, t, code)
            } else {
                (s, a)
            }
        } else {
            (s, a)
        }
    } else {
        spec_check_close(s, a, t, code)
    }
}

/// Machine-width bounds one whole tick step needs.
pub open spec fn process_tick_fits(s: TickStrategyV, a: AccountV, t: TickData, code: StockCode) -> bool {
    &&& i64::MIN <= t.time - s.last_trade_time <= i64::MAX
    &&& (t.time - s.last_trade_time >= s.cooldown_period ==> {
        &&& i64::MIN <= t.ask1_price - t.bid1_price <= i64::MAX
        &&& (t.bid1_volume >= s.min_volume && t.ask1_volume >= s.min_volume ==> {
            &&& (s.position == 0 ==> {
                &&& buy_fits(a, long_order(s, t, code))
                &&& buy_fits(a, short_order(s, t, code))
            })
            &&& (s.position > 0 ==> {
                &&& i64::MIN <= s.last_trade_price - s.stop_loss_points <= i64::MAX
                &&& i64::MIN <= s.last_trade_price + s.take_profit_points <= i64::MAX
            })
            &&& (s.position < 0 ==> {
                &&& i64::MIN <= s.last_trade_price + s.stop_loss_points <= i64::MAX
                &&& i64::MIN <= s.last_trade_price - s.take_profit_points <= i64::MAX
            })
            &&& (s.position != 0 && close_triggered(s, t) ==> sell_fits(
                a,
                close_order(s, t, code),
            ))
        })
    })
}

impl TickStrategy {
    /// A fresh strategy over the given parameters: flat, with no trade seen.
    pub fn new(
        min_spread: i64,
        min_volume: i64,
        trade_volume: i64,
        stop_loss_points: i64,
        take_profit_points: i64,
        cooldown_period: i64,
    ) -> (s: Self)
        requires
            trade_volume >= 1,
        ensures
            s@ == (TickStrategyV {
                min_spread: min_spread as int,
                min_volume: min_volume as int,
                trade_volume: trade_volume as int,
                stop_loss_points: stop_loss_points as int,
                take_profit_points: take_profit_points as int,
                last_trade_price: 0,
                last_trade_time: 0,
                position: 0,
                cooldown_period: cooldown_period as int,
            }),
            s@.wf(),
    {
        TickStrategy {
            min_spread,
            min_volume,
            trade_volume,
            stop_loss_points,
            take_profit_points,
            cooldown_period,
            last_trade_price: 0,
            last_trade_time: 0,
            position: 0,
        }
    }

    /// Open a long position at the best ask.
    fn open_long(&mut self, tick: &TickData, code: StockCode, account: &mut Account)
        requires
            old(self)@.wf(),
            old(account)@.wf(),
            tick.ask1_price >= 0,
            buy_fits(old(account)@, long_order(old(self)@, *tick, code)),
        ensures
            final(self)@ == spec_open_long(old(self)@, old(account)@, *tick, code).0,
            final(account)@ == spec_open_long(old(self)@, old(account)@, *tick, code).1,
            final(self)@.wf(),
            final(account)@.wf(),
    {
        let order = Order {
            market_type: ' ',
            code: code,
            time: tick.time,
            price: tick.ask1_price,
            volume: self.trade_volume,
            side: Side::Buy,
        };
        if account.buy(&order) {
            self.position = self.trade_volume;
            self.last_trade_price = tick.ask1_price;
            self.last_trade_time = tick.time;
        }
    }

    /// Record an intended short position; the entry leg is deliberately a
    /// buy at the best bid, with no sell leg.
    fn open_short(&mut self, tick: &TickData, code: StockCode, account: &mut Account)
        requires
            old(self)@.wf(),
            old(account)@.wf(),
            tick.bid1_price >= 0,
            buy_fits(old(account)@, short_order(old(self)@, *tick, code)),
        ensures
            final(self)@ == spec_open_short(old(self)@, old(account)@, *tick, code).0,
            final(account)@ == spec_open_short(old(self)@, old(account)@, *tick, code).1,
            final(self)@.wf(),
            final(account)@.wf(),
    {
        let order = Order {
            market_type: ' ',
            code: code,
            time: tick.time,
            price: tick.bid1_price,
            volume: self.trade_volume,
            side: Side::Buy,
        };
        if account.buy(&order) {
            self.position = -self.trade_volume;
            self.last_trade_price = tick.bid1_price;
            self.last_trade_time = tick.time;
        }
    }

    /// Close the whole position with one sell.
    fn close_position(&mut self, tick: &TickData, code: StockCode, account: &mut Account)
        requires
            old(self)@.wf(),
            old(account)@.wf(),
            tick.ask1_price >= 0,
            tick.bid1_price >= 0,
            sell_fits(old(account)@, close_order(old(self)@, *tick, code)),
        ensures
            final(self)@ == spec_close_position(old(self)@, old(account)@, *tick, code).0,
            final(account)@ == spec_close_position(old(self)@, old(account)@, *tick, code).1,
            final(self)@.wf(),
            final(account)@.wf(),
    {
        let order = Order {
            market_type: ' ',
            code: code,
            time: tick.time,
            price: if self.position > 0 {
                tick.bid1_price
            } else {
                tick.ask1_price
            },
            volume: if self.position > 0 {
                self.position
            } else {
                -self.position
            },
            side: Side::Sell,
        };
        if account.sell(&order) {
            self.position = 0;
            self.last_trade_time = tick.time;
        }
    }

    /// Holding-state step: close on a stop-loss or take-profit hit.
    fn check_close_position(&mut self, tick: &TickData, code: StockCode, account: &mut Account)
        requires
            old(self)@.wf(),
            old(account)@.wf(),
            tick.ask1_price >= 0,
            tick.bid1_price >= 0,
            old(self)@.position > 0 ==> {
                &&& i64::MIN <= old(self)@.last_trade_price - old(self)@.stop_loss_points
                    <= i64::MAX
                &&& i64::MIN <= old(self)@.last_trade_price + old(self)@.take_profit_points
                    <= i64::MAX
            },
            old(self)@.position < 0 ==> {
                &&& i64::MIN <= old(self)@.last_trade_price + old(self)@.stop_loss_points
                    <= i64::MAX
                &&& i64::MIN <= old(self)@.last_trade_price - old(self)@.take_profit_points
                    <= i64::MAX
            },
            close_triggered(old(self)@, *tick) ==> sell_fits(
                old(account)@,
                close_order(old(self)@, *tick, code),
            ),
        ensures
            final(self)@ == spec_check_close(old(self)@, old(account)@, *tick, code).0,
            final(account)@ == spec_check_close(old(self)@, old(account)@, *tick, code).1,
            final(self)@.wf(),
            final(account)@.wf(),
    {
        if self.position > 0 {
            if tick.bid1_price <= self.last_trade_price - self.stop_loss_points {
                self.close_position(tick, code, account);
            } else if tick.bid1_price >= self.last_trade_price + self.take_profit_points {
                self.close_position(tick, code, account);
            }
        } else if self.position < 0 {
            if tick.ask1_price >= self.last_trade_price + self.stop_loss_points {
                self.close_position(tick, code, account);
            } else if tick.ask1_price <= self.last_trade_price - self.take_profit_points {
                self.close_position(tick, code, account);
            }
        }
    }

    /// Feed one tick to the strategy: within the cooldown or without depth
    /// behind both best quotes the tick is ignored; flat, a tight spread may
    /// open a position; holding, the stop levels may close it.
    pub fn process_tick(&mut self, tick: &TickData, code: &str, account: &mut Account)
        requires
            old(self)@.wf(),
            old(account)@.wf(),
            code.spec_bytes().len() <= 8,
            tick.ask1_price >= 0,
            tick.bid1_price >= 0,
            process_tick_fits(old(self)@, old(account)@, *tick, code_of(code.spec_bytes())),
        ensures
            final(self)@ == spec_process_tick(
                old(self)@,
                old(account)@,
                *tick,
                code_of(code.spec_bytes()),
            ).0,
            final(account)@ == spec_process_tick(
                old(self)@,
                old(account)@,
                *tick,
                code_of(code.spec_bytes()),
            ).1,
            final(self)@.wf(),
            final(account)@.wf(),
            tick.time - old(self)@.last_trade_time < old(self)@.cooldown_period ==> (final(self)@
                == old(self)@ && final(account)@ == old(account)@),
    {
        let sc = StockCode::from(code);
        if tick.time - self.last_trade_time < self.cooldown_period {
            return ;
        }
        let spread = tick.ask1_price - tick.bid1_price;
        if tick.bid1_volume < self.min_volume || tick.ask1_volume < self.min_volume {
            return ;
        }
        if self.position == 0 {
            if spread <= self.min_spread {
                if tick.bid1_price > tick.last_price && tick.ask1_volume > self.min_volume {
                    self.open_long(tick, sc, account);
                } else if tick.ask1_price < tick.last_price && tick.bid1_volume > self.min_volume {
                    self.open_short(tick, sc, account);
                }
            }
        } else {
            self.check_close_position(tick, sc, account);
        }
    }
}

} // verus!
