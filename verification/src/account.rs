//! The account ledger: cash balances, per-instrument positions, and the
//! append-only record of filled orders.
//!
//! All money amounts (prices, balances, market values) are integers in
//! thousandths of a currency unit; volumes are share counts.

use vstd::prelude::*;
use vstd::arithmetic::div_mod::{lemma_div_nonincreasing, lemma_div_pos_is_pos};
use vstd::arithmetic::mul::lemma_mul_nonnegative;
use vstd::string::StringSliceAdditionalSpecFns;

verus! {

/// Quotient rounded toward zero, as the hardware division computes it for a
/// positive divisor. Ghost `/` rounds toward negative infinity, so the two
/// differ on negative dividends.
pub open spec fn quot(a: int, b: int) -> int {
    if a >= 0 {
        a / b
    } else {
        -((-a) / b)
    }
}

/// For a positive divisor, the quotient lies between zero and the dividend.
pub proof fn lemma_quot_bounds(a: int, b: int)
    requires
        b >= 1,
    ensures
        a >= 0 ==> 0 <= quot(a, b) <= a,
        a < 0 ==> a <= quot(a, b) <= 0,
{
    if a >= 0 {
        lemma_div_pos_is_pos(a, b);
        lemma_div_nonincreasing(a, b);
    } else {
        lemma_div_pos_is_pos(-a, b);
        lemma_div_nonincreasing(-a, b);
    }
}

/// Truncating division for ledger cost arithmetic.
fn div_trunc(a: i64, b: i64) -> (r: i64)
    requires
        b >= 1,
    ensures
        r == quot(a as int, b as int),
{
    proof {
        lemma_quot_bounds(a as int, b as int);
    }
    match a.checked_div(b) {
        Some(q) => q,
        None => 0,
    }
}

/// A normalized instrument identifier: up to eight bytes of the code, packed
/// base-256 into one integer, so that two codes are equal exactly when their
/// byte strings are.
#[derive(Debug, PartialEq, Eq, Structural, Clone, Copy, Hash)]
pub struct StockCode(pub u64);

/// The integer that packs the byte string `s` base-256, low byte first.
pub open spec fn pack_code(s: Seq<u8>) -> int
    decreases s.len(),
{
    if s.len() == 0 {
        0
    } else {
        pack_code(s.drop_last()) * 256 + s.last()
    }
}

/// A byte string of at most eight bytes packs below 2^64.
pub proof fn lemma_pack_code_bounds(s: Seq<u8>)
    requires
        s.len() <= 8,
    ensures
        0 <= pack_code(s) < 0x1_0000_0000_0000_0000,
    decreases s.len(),
{
    lemma_pack_code_below(s, s.len() as nat);
    lemma_pow256_le(s.len() as nat, 8);
    lemma_pow256_values();
}

proof fn lemma_pow256_values()
    ensures
        pow256(7) == 0x100_0000_0000_0000,
        pow256(8) == 0x1_0000_0000_0000_0000,
{
    reveal_with_fuel(pow256, 9);
}

proof fn lemma_pack_code_below(s: Seq<u8>, n: nat)
    requires
        s.len() == n,
    ensures
        0 <= pack_code(s) < pow256(n),
    decreases n,
{
    if n > 0 {
        lemma_pack_code_below(s.drop_last(), (n - 1) as nat);
    }
}

pub open spec fn pow256(n: nat) -> int
    decreases n,
{
    if n == 0 {
        1
    } else {
        256 * pow256((n - 1) as nat)
    }
}

/// The code a byte string of at most eight bytes denotes.
pub open spec fn code_of(s: Seq<u8>) -> StockCode
    recommends
        s.len() <= 8,
{
    StockCode(pack_code(s) as u64)
}

impl StockCode {
    /// Pack the leading bytes of `value` into a code. Identifiers longer than
    /// eight bytes are not representable.
    pub fn from(value: &str) -> (r: StockCode)
        requires
            value.spec_bytes().len() <= 8,
        ensures
            r == code_of(value.spec_bytes()),
    {
        let bytes = value.as_bytes();
        let ghost s = value.spec_bytes();
        let mut k: u64 = 0;
        let mut i: usize = 0;
        proof {
            assert(s.subrange(0, 0) =~= Seq::<u8>::empty());
        }
        while i < bytes.len()
            invariant
                i <= s.len() <= 8,
                bytes@ == s,
                k == pack_code(s.subrange(0, i as int)),
            decreases s.len() - i,
        {
            proof {
                lemma_pack_code_below(s.subrange(0, i as int), i as nat);
                lemma_pow256_le(i as nat, 7);
                lemma_pow256_values();
                assert(s.subrange(0, i + 1).drop_last() =~= s.subrange(0, i as int));
            }
            k = k * 256 + (bytes[i] as u64);
            i = i + 1;
        }
        proof {
            assert(s.subrange(0, s.len() as int) =~= s);
            lemma_pack_code_bounds(s);
        }
        StockCode(k)
    }
}

proof fn lemma_pow256_le(m: nat, n: nat)
    requires
        m <= n,
    ensures
        pow256(m) <= pow256(n),
        pow256(n) >= 1,
    decreases n,
{
    if n > 0 {
        if m == n {
            lemma_pow256_le((m - 1) as nat, (n - 1) as nat);
        } else {
            lemma_pow256_le(m, (n - 1) as nat);
        }
    }
}

/// Whether an order buys or sells.
#[derive(Debug, PartialEq, Eq, Structural, Clone, Copy)]
pub enum Side {
    Buy,
    Sell,
}

/// Per-instrument holding record. Mutated only through [`Account`].
#[derive(Debug, Clone, Copy)]
pub struct Position {
    pub code: StockCode,
    /// Shares held; never negative.
    pub volume: i64,
    /// Shares sellable now; bought shares join on the next session.
    pub available_vol: i64,
    /// Price of the last mark-to-market.
    pub current_price: i64,
    /// Volume-weighted average acquisition price; zero once flat.
    pub cost_price: i64,
    /// Reserved; the engine never writes it.
    pub profit: i64,
    /// `current_price * volume` as of the last mark-to-market.
    pub market_value: i64,
}

/// Mathematical counterpart of [`Position`].
#[verifier::ext_equal]
pub ghost struct PositionV {
    pub code: StockCode,
    pub volume: int,
    pub available_vol: int,
    pub current_price: int,
    pub cost_price: int,
    pub profit: int,
    pub market_value: int,
}

impl View for Position {
    type V = PositionV;

    open spec fn view(&self) -> PositionV {
        PositionV {
            code: self.code,
            volume: self.volume as int,
            available_vol: self.available_vol as int,
            current_price: self.current_price as int,
            cost_price: self.cost_price as int,
            profit: self.profit as int,
            market_value: self.market_value as int,
        }
    }
}

/// An execution request, consumed by one ledger call.
#[derive(Debug, Clone, Copy)]
pub struct Order {
    /// Free-form market segment tag.
    pub market_type: char,
    pub code: StockCode,
    /// Event timestamp in seconds.
    pub time: i64,
    pub price: i64,
    pub volume: i64,
    pub side: Side,
}

/// Mathematical counterpart of [`Order`].
#[verifier::ext_equal]
pub ghost struct OrderV {
    pub market_type: char,
    pub code: StockCode,
    pub time: int,
    pub price: int,
    pub volume: int,
    pub side: Side,
}

impl View for Order {
    type V = OrderV;

    open spec fn view(&self) -> OrderV {
        OrderV {
            market_type: self.market_type,
            code: self.code,
            time: self.time as int,
            price: self.price as int,
            volume: self.volume as int,
            side: self.side,
        }
    }
}

/// An immutable record of one filled order.
#[derive(Debug, Clone, Copy)]
pub struct Transaction {
    pub time: i64,
    pub price: i64,
    /// Positive for a buy, negative for a sell.
    pub volume: i64,
    pub side: Side,
    /// Position volume right after the fill.
    pub remain_vol: i64,
    /// Position cost basis right after the fill.
    pub remain_cost: i64,
}

/// Mathematical counterpart of [`Transaction`].
#[verifier::ext_equal]
pub ghost struct TransactionV {
    pub time: int,
    pub price: int,
    pub volume: int,
    pub side: Side,
    pub remain_vol: int,
    pub remain_cost: int,
}

impl View for Transaction {
    type V = TransactionV;

    open spec fn view(&self) -> TransactionV {
        TransactionV {
            time: self.time as int,
            price: self.price as int,
            volume: self.volume as int,
            side: self.side,
            remain_vol: self.remain_vol as int,
            remain_cost: self.remain_cost as int,
        }
    }
}

/// The ledger: cash, positions, and the audit trail. All mutation flows
/// through its methods.
#[derive(Debug)]
pub struct Account {
    /// Total assets: recomputed as available + frozen + portfolio value on
    /// every mark-to-market.
    pub balance: i64,
    /// Cash reserved by unfilled orders; untouched by the immediate-fill
    /// execution model.
    pub freeze_balance: i64,
    /// Spendable cash.
    pub available_balance: i64,
    /// Sum of all positions' market values, maintained incrementally.
    pub portfolio_value: i64,
    /// Reserved; the engine never writes it.
    pub profit: i64,
    /// Positions, one per instrument code.
    pub hold: Vec<Position>,
    /// Filled orders, appended in order of execution.
    pub transactions: Vec<Transaction>,
    /// Order audit trail; reserved, the immediate-fill model never queues.
    pub orders: Vec<Order>,
}

/// Mathematical counterpart of [`Account`].
#[verifier::ext_equal]
pub ghost struct AccountV {
    pub balance: int,
    pub freeze_balance: int,
    pub available_balance: int,
    pub portfolio_value: int,
    pub profit: int,
    pub hold: Seq<PositionV>,
    pub transactions: Seq<TransactionV>,
    pub orders: Seq<OrderV>,
}

impl View for Account {
    type V = AccountV;

    open spec fn view(&self) -> AccountV {
        AccountV {
            balance: self.balance as int,
            freeze_balance: self.freeze_balance as int,
            available_balance: self.available_balance as int,
            portfolio_value: self.portfolio_value as int,
            profit: self.profit as int,
            hold: self.hold@.map_values(|p: Position| p@),
            transactions: self.transactions@.map_values(|t: Transaction| t@),
            orders: self.orders@.map_values(|o: Order| o@),
        }
    }
}

/// Index of the position holding `code`, or -1 when no position does.
pub open spec fn index_of(hold: Seq<PositionV>, code: StockCode) -> int
    decreases hold.len(),
{
    if hold.len() == 0 {
        -1
    } else if hold[0].code == code {
        0
    } else {
        let r = index_of(hold.drop_first(), code);
        if r == -1 {
            -1
        } else {
            r + 1
        }
    }
}

/// Whether some position holds `code`.
pub open spec fn has_position(hold: Seq<PositionV>, code: StockCode) -> bool {
    index_of(hold, code) >= 0
}

/// `index_of` returns a valid index bearing the code, and the first one.
pub proof fn lemma_index_of(hold: Seq<PositionV>, code: StockCode)
    ensures
        -1 <= index_of(hold, code) < hold.len(),
        index_of(hold, code) >= 0 ==> hold[index_of(hold, code)].code == code,
        forall|j: int|
            0 <= j < hold.len() && hold[j].code == code ==> 0 <= index_of(hold, code) <= j,
    decreases hold.len(),
{
    if hold.len() > 0 && hold[0].code != code {
        lemma_index_of(hold.drop_first(), code);
        assert forall|j: int|
            0 <= j < hold.len() && hold[j].code == code implies 0 <= index_of(hold, code)
            <= j by {
            assert(hold.drop_first()[j - 1] == hold[j]);
        }
    }
}

/// A zeroed position for a code seen for the first time.
pub open spec fn new_position(code: StockCode) -> PositionV {
    PositionV {
        code: code,
        volume: 0,
        available_vol: 0,
        current_price: 0,
        cost_price: 0,
        profit: 0,
        market_value: 0,
    }
}

/// A position never has more sellable shares than held ones.
pub open spec fn wf_position(p: PositionV) -> bool {
    0 <= p.available_vol <= p.volume
}

impl AccountV {
    /// Ledger well-formedness: positions are well formed, one per code.
    pub open spec fn wf(self) -> bool {
        &&& forall|i: int| 0 <= i < self.hold.len() ==> wf_position(#[trigger] self.hold[i])
        &&& forall|i: int, j: int|
            0 <= i < j < self.hold.len() ==> self.hold[i].code != self.hold[j].code
    }
}

/// Lookup-or-insert: the ledger after making sure `code` has a position.
pub open spec fn spec_get_or_create(a: AccountV, code: StockCode) -> AccountV {
    if has_position(a.hold, code) {
        a
    } else {
        AccountV { hold: a.hold.push(new_position(code)), ..a }
    }
}

/// The ledger after a buy, and whether the buy filled. A buy fills exactly
/// when the spendable cash covers `price * volume`; it then debits that
/// turnover, grows the position, sets the volume-weighted average cost, and
/// appends the fill record. Newly bought shares stay unsellable until the
/// next session.
pub open spec fn spec_buy(a: AccountV, o: OrderV) -> (AccountV, bool) {
    let turnover = o.price * o.volume;
    if a.available_balance < turnover {
        (a, false)
    } else {
        let a1 = spec_get_or_create(a, o.code);
        let i = index_of(a1.hold, o.code);
        let p = a1.hold[i];
        let new_vol = p.volume + o.volume;
        let new_cost = quot(p.volume * p.cost_price + turnover, new_vol);
        let p2 = PositionV { volume: new_vol, cost_price: new_cost, ..p };
        let t = TransactionV {
            time: o.time,
            price: o.price,
            volume: o.volume,
            side: Side::Buy,
            remain_vol: new_vol,
            remain_cost: new_cost,
        };
        (
            AccountV {
                available_balance: a1.available_balance - turnover,
                hold: a1.hold.update(i, p2),
                transactions: a1.transactions.push(t),
                ..a1
            },
            true,
        )
    }
}

/// The ledger after a sell, and whether the sell filled. A sell fills exactly
/// when a position holds the code and `0 < volume <= available_vol`; it then
/// credits the turnover, shrinks the position on both counters, recomputes
/// the cost basis (zero once flat), and appends the fill record with negated
/// volume.
pub open spec fn spec_sell(a: AccountV, o: OrderV) -> (AccountV, bool) {
    let i = index_of(a.hold, o.code);
    if i == -1 {
        (a, false)
    } else {
        let p = a.hold[i];
        if o.volume <= 0 || o.volume > p.available_vol {
            (a, false)
        } else {
            let turnover = o.price * o.volume;
            let new_vol = p.volume - o.volume;
            let new_cost = if new_vol != 0 {
                quot(p.volume * p.cost_price - turnover, new_vol)
            } else {
                0
            };
            let p2 = PositionV {
                volume: new_vol,
                available_vol: p.available_vol - o.volume,
                cost_price: new_cost,
                ..p
            };
            let t = TransactionV {
                time: o.time,
                price: o.price,
                volume: -o.volume,
                side: Side::Sell,
                remain_vol: new_vol,
                remain_cost: new_cost,
            };
            (
                AccountV {
                    available_balance: a.available_balance + turnover,
                    hold: a.hold.update(i, p2),
                    transactions: a.transactions.push(t),
                    ..a
                },
                true,
            )
        }
    }
}

/// The ledger after marking `code` to `price`: the position's snapshot and
/// the incremental portfolio value move to the new price, and the total
/// balance is recomputed. A no-op for an unknown code.
pub open spec fn spec_mark(a: AccountV, code: StockCode, price: int) -> AccountV {
    let i = index_of(a.hold, code);
    if i == -1 {
        a
    } else {
        let p = a.hold[i];
        let after = price * p.volume;
        let new_portfolio = a.portfolio_value + after - p.market_value;
        AccountV {
            portfolio_value: new_portfolio,
            hold: a.hold.update(i, PositionV { current_price: price, market_value: after, ..p }),
            balance: a.available_balance + new_portfolio + a.freeze_balance,
            ..a
        }
    }
}

/// The ledger once a new session starts for `code`: the whole holding
/// becomes sellable. A no-op for an unknown code.
pub open spec fn spec_release(a: AccountV, code: StockCode) -> AccountV {
    let i = index_of(a.hold, code);
    if i == -1 {
        a
    } else {
        let p = a.hold[i];
        AccountV { hold: a.hold.update(i, PositionV { available_vol: p.volume, ..p }), ..a }
    }
}

/// The machine-width bounds a buy needs: the turnover and the cost-basis
/// arithmetic stay within the ledger's integer range.
pub open spec fn buy_fits(a: AccountV, o: OrderV) -> bool {
    let turnover = o.price * o.volume;
    let a1 = spec_get_or_create(a, o.code);
    let p = a1.hold[index_of(a1.hold, o.code)];
    &&& turnover <= i64::MAX
    &&& (a.available_balance >= turnover ==> {
        &&& p.volume + o.volume <= i64::MAX
        &&& i64::MIN <= p.volume * p.cost_price <= i64::MAX
        &&& i64::MIN <= p.volume * p.cost_price + turnover <= i64::MAX
    })
}

/// The machine-width bounds a sell needs.
pub open spec fn sell_fits(a: AccountV, o: OrderV) -> bool {
    let i = index_of(a.hold, o.code);
    i >= 0 ==> {
        let p = a.hold[i];
        (0 < o.volume <= p.available_vol) ==> {
            let turnover = o.price * o.volume;
            &&& turnover <= i64::MAX
            &&& a.available_balance + turnover <= i64::MAX
            &&& i64::MIN <= p.volume * p.cost_price <= i64::MAX
            &&& i64::MIN <= p.volume * p.cost_price - turnover <= i64::MAX
        }
    }
}

/// The machine-width bounds a mark-to-market needs.
pub open spec fn mark_fits(a: AccountV, code: StockCode, price: int) -> bool {
    let i = index_of(a.hold, code);
    i >= 0 ==> {
        let p = a.hold[i];
        let after = price * p.volume;
        let new_portfolio = a.portfolio_value + after - p.market_value;
        &&& after <= i64::MAX
        &&& i64::MIN <= after - p.market_value <= i64::MAX
        &&& i64::MIN <= new_portfolio <= i64::MAX
        &&& i64::MIN <= a.available_balance + new_portfolio <= i64::MAX
        &&& i64::MIN <= a.available_balance + new_portfolio + a.freeze_balance <= i64::MAX
    }
}

/// Replacing a position with one bearing the same code moves no position in
/// the table's index order.
pub proof fn lemma_index_of_update(hold: Seq<PositionV>, i: int, p: PositionV, code: StockCode)
    requires
        0 <= i < hold.len(),
        p.code == hold[i].code,
    ensures
        index_of(hold.update(i, p), code) == index_of(hold, code),
    decreases hold.len(),
{
    if i == 0 {
        if hold[0].code != code {
            assert(hold.update(i, p).drop_first() =~= hold.drop_first());
        }
    } else {
        assert(hold.update(i, p).drop_first() =~= hold.drop_first().update(i - 1, p));
        lemma_index_of_update(hold.drop_first(), i - 1, p, code);
    }
}

/// Appending a position for an unheld code puts it at the end of the table.
pub proof fn lemma_index_of_push(hold: Seq<PositionV>, code: StockCode, p: PositionV)
    requires
        index_of(hold, code) == -1,
        p.code == code,
    ensures
        index_of(hold.push(p), code) == hold.len(),
    decreases hold.len(),
{
    if hold.len() == 0 {
        assert(hold.push(p)[0] == p);
    } else {
        lemma_index_of(hold.drop_first(), code);
        assert(hold.push(p).drop_first() =~= hold.drop_first().push(p));
        lemma_index_of_push(hold.drop_first(), code, p);
    }
}

/// A buy leaves its code held, at an unmoved table index when it was held
/// before.
pub proof fn lemma_buy_keeps_code(a: AccountV, o: OrderV)
    ensures
        has_position(spec_buy(a, o).0.hold, o.code) == (has_position(a.hold, o.code) || spec_buy(
            a,
            o,
        ).1),
        has_position(a.hold, o.code) ==> index_of(spec_buy(a, o).0.hold, o.code) == index_of(
            a.hold,
            o.code,
        ),
{
    lemma_index_of(a.hold, o.code);
    if spec_buy(a, o).1 {
        let a1 = spec_get_or_create(a, o.code);
        if !has_position(a.hold, o.code) {
            lemma_index_of_push(a.hold, o.code, new_position(o.code));
        }
        let i = index_of(a1.hold, o.code);
        lemma_index_of(a1.hold, o.code);
        lemma_index_of_update(a1.hold, i, spec_buy(a, o).0.hold[i], o.code);
    }
}

/// Law: a filled buy debits exactly `price * volume` from the spendable
/// cash, grows the position by the order volume, and sets the cost basis to
/// the volume-weighted average `(old_vol * old_cost + price * volume) /
/// (old_vol + volume)`; the fill is appended to the transaction record.
pub proof fn lemma_buy_updates(a: AccountV, o: OrderV)
    requires
        a.wf(),
        o.volume > 0,
        spec_buy(a, o).1,
    ensures
        ({
            let a2 = spec_buy(a, o).0;
            let i = index_of(a2.hold, o.code);
            let held = has_position(a.hold, o.code);
            let old_vol = if held {
                a.hold[index_of(a.hold, o.code)].volume
            } else {
                0
            };
            let old_cost = if held {
                a.hold[index_of(a.hold, o.code)].cost_price
            } else {
                0
            };
            let new_vol = old_vol + o.volume;
            let new_cost = quot(old_vol * old_cost + o.price * o.volume, new_vol);
            &&& a2.available_balance == a.available_balance - o.price * o.volume
            &&& 0 <= i < a2.hold.len()
            &&& a2.hold[i].volume == new_vol
            &&& a2.hold[i].cost_price == new_cost
            &&& a2.hold[i].available_vol == (if held {
                a.hold[index_of(a.hold, o.code)].available_vol
            } else {
                0
            })
            &&& a2.transactions == a.transactions.push(
                TransactionV {
                    time: o.time,
                    price: o.price,
                    volume: o.volume,
                    side: Side::Buy,
                    remain_vol: new_vol,
                    remain_cost: new_cost,
                },
            )
        }),
{
    let a1 = spec_get_or_create(a, o.code);
    lemma_index_of(a.hold, o.code);
    if !has_position(a.hold, o.code) {
        lemma_index_of_push(a.hold, o.code, new_position(o.code));
    }
    let i1 = index_of(a1.hold, o.code);
    let p2 = spec_buy(a, o).0.hold[i1];
    lemma_index_of_update(a1.hold, i1, p2, o.code);
}

/// Law: a filled sell credits exactly `price * volume` to the spendable
/// cash and shrinks both the holding and its sellable part by the order
/// volume; selling the whole holding resets the cost basis to exactly zero.
pub proof fn lemma_sell_updates(a: AccountV, o: OrderV)
    requires
        a.wf(),
        spec_sell(a, o).1,
    ensures
        ({
            let a2 = spec_sell(a, o).0;
            let j = index_of(a.hold, o.code);
            let p = a.hold[j];
            let i = index_of(a2.hold, o.code);
            &&& a2.available_balance == a.available_balance + o.price * o.volume
            &&& i == j
            &&& a2.hold[i].volume == p.volume - o.volume
            &&& a2.hold[i].available_vol == p.available_vol - o.volume
            &&& (a2.hold[i].volume == 0 ==> a2.hold[i].cost_price == 0)
            &&& (a2.hold[i].volume != 0 ==> a2.hold[i].cost_price == quot(
                p.volume * p.cost_price - o.price * o.volume,
                p.volume - o.volume,
            ))
            &&& a2.transactions == a.transactions.push(
                TransactionV {
                    time: o.time,
                    price: o.price,
                    volume: -o.volume,
                    side: Side::Sell,
                    remain_vol: p.volume - o.volume,
                    remain_cost: a2.hold[i].cost_price,
                },
            )
        }),
{
    let j = index_of(a.hold, o.code);
    lemma_index_of(a.hold, o.code);
    let p2 = spec_sell(a, o).0.hold[j];
    lemma_index_of_update(a.hold, j, p2, o.code);
}

/// Law: marking a held code to any price leaves the total balance equal to
/// available + frozen + portfolio value, and keeps every cash field and the
/// transaction record untouched.
pub proof fn lemma_mark_balance(a: AccountV, code: StockCode, price: int)
    requires
        has_position(a.hold, code),
    ensures
        ({
            let a2 = spec_mark(a, code, price);
            &&& a2.balance == a2.available_balance + a2.freeze_balance + a2.portfolio_value
            &&& a2.available_balance == a.available_balance
            &&& a2.freeze_balance == a.freeze_balance
            &&& a2.transactions == a.transactions
        }),
{
    lemma_index_of(a.hold, code);
}

impl Account {
    /// Index of the position holding `code`, when one does.
    fn position_index(&self, code: StockCode) -> (r: Option<usize>)
        ensures
            match r {
                Some(i) => i == index_of(self@.hold, code) && i < self.hold.len(),
                None => index_of(self@.hold, code) == -1,
            },
    {
        proof {
            lemma_index_of(self@.hold, code);
        }
        let mut i: usize = 0;
        while i < self.hold.len()
            invariant
                i <= self.hold.len(),
                forall|j: int| 0 <= j < i ==> self@.hold[j].code != code,
            decreases self.hold.len() - i,
        {
            if self.hold[i].code == code {
                proof {
                    lemma_index_of(self@.hold, code);
                    assert(self@.hold[i as int].code == code);
                }
                return Some(i);
            }
            i = i + 1;
        }
        None
    }

    /// Lookup-or-insert, handing back the table index of the position.
    fn ensure_position(&mut self, code: StockCode) -> (i: usize)
        requires
            old(self)@.wf(),
        ensures
            final(self)@ == spec_get_or_create(old(self)@, code),
            final(self)@.wf(),
            has_position(final(self)@.hold, code),
            i == index_of(final(self)@.hold, code),
            i < final(self).hold.len(),
            final(self)@.hold[i as int].code == code,
    {
        proof {
            lemma_index_of(self@.hold, code);
        }
        match self.position_index(code) {
            Some(i) => i,
            None => {
                let p = Position {
                    code: code,
                    volume: 0,
                    available_vol: 0,
                    current_price: 0,
                    cost_price: 0,
                    profit: 0,
                    market_value: 0,
                };
                let i = self.hold.len();
                self.hold.push(p);
                proof {
                    assert(self@.hold =~= old(self)@.hold.push(new_position(code)));
                    lemma_index_of_push(old(self)@.hold, code, new_position(code));
                    lemma_index_of(old(self)@.hold, code);
                    assert(self@ =~~= spec_get_or_create(old(self)@, code));
                }
                i
            },
        }
    }

    /// Lookup-or-insert for `code`; a fresh position starts fully zeroed.
    pub fn get_position(&mut self, code: StockCode) -> (p: Position)
        requires
            old(self)@.wf(),
        ensures
            final(self)@ == spec_get_or_create(old(self)@, code),
            final(self)@.wf(),
            has_position(final(self)@.hold, code),
            p@ == final(self)@.hold[index_of(final(self)@.hold, code)],
            p.code == code,
    {
        let i = self.ensure_position(code);
        self.hold[i]
    }

    /// Execute a buy order: all-or-nothing at the quoted price.
    ///
    /// Fills exactly when the spendable cash covers `price * volume`; on a
    /// fill it debits the turnover, grows the position at the volume-weighted
    /// average cost, and appends the fill record. A rejected buy leaves the
    /// ledger untouched. Bought shares do not become sellable in the same
    /// session.
    pub fn buy(&mut self, order: &Order) -> (r: bool)
        requires
            old(self)@.wf(),
            order.volume > 0,
            order.price >= 0,
            buy_fits(old(self)@, order@),
        ensures
            final(self)@ == spec_buy(old(self)@, order@).0,
            r == spec_buy(old(self)@, order@).1,
            final(self)@.wf(),
            r <==> old(self).available_balance >= order.price * order.volume,
            r ==> final(self).available_balance == old(self).available_balance - order.price
                * order.volume,
            !r ==> final(self)@ == old(self)@,
    {
        proof {
            lemma_mul_nonnegative(order.price as int, order.volume as int);
        }
        let turnover = order.price * order.volume;
        if self.available_balance < turnover {
            return false;
        }
        self.available_balance = self.available_balance - turnover;
        let i = self.ensure_position(order.code);
        let p = self.hold[i];
        let total_cost = p.volume * p.cost_price + turnover;
        let new_vol = p.volume + order.volume;
        let new_cost = div_trunc(total_cost, new_vol);
        let p2 = Position { volume: new_vol, cost_price: new_cost, ..p };
        self.hold.set(i, p2);
        self.transactions.push(
            Transaction {
                time: order.time,
                price: order.price,
                volume: order.volume,
                side: Side::Buy,
                remain_vol: new_vol,
                remain_cost: new_cost,
            },
        );
        proof {
            let spec_post = spec_buy(old(self)@, order@).0;
            assert(self@.hold =~= spec_post.hold);
            assert(self@.transactions =~= spec_post.transactions);
            assert(self@ =~~= spec_post);
        }
        true
    }

    /// Execute a sell order: all-or-nothing at the quoted price.
    ///
    /// Fills exactly when a position holds the code and `0 < volume <=
    /// available_vol`; on a fill it credits the turnover, shrinks the
    /// position, recomputes the cost basis (zero once flat), and appends the
    /// fill record with negated volume. A rejected sell leaves the ledger
    /// untouched.
    pub fn sell(&mut self, order: &Order) -> (r: bool)
        requires
            old(self)@.wf(),
            order.price >= 0,
            sell_fits(old(self)@, order@),
        ensures
            final(self)@ == spec_sell(old(self)@, order@).0,
            r == spec_sell(old(self)@, order@).1,
            final(self)@.wf(),
            r <==> (has_position(old(self)@.hold, order@.code) && 0 < order.volume <= old(
                self,
            )@.hold[index_of(old(self)@.hold, order@.code)].available_vol),
            r ==> final(self).available_balance == old(self).available_balance + order.price
                * order.volume,
            !r ==> final(self)@ == old(self)@,
    {
        proof {
            lemma_index_of(self@.hold, order@.code);
        }
        let i = match self.position_index(order.code) {
            Some(i) => i,
            None => {
                return false;
            },
        };
        let p = self.hold[i];
        if order.volume <= 0 || order.volume > p.available_vol {
            return false;
        }
        proof {
            lemma_mul_nonnegative(order.price as int, order.volume as int);
        }
        let turnover = order.price * order.volume;
        self.available_balance = self.available_balance + turnover;
        let gross = p.volume * p.cost_price;
        let new_vol = p.volume - order.volume;
        let new_cost = if new_vol != 0 {
            div_trunc(gross - turnover, new_vol)
        } else {
            0
        };
        let p2 = Position {
            volume: new_vol,
            available_vol: p.available_vol - order.volume,
            cost_price: new_cost,
            ..p
        };
        self.hold.set(i, p2);
        self.transactions.push(
            Transaction {
                time: order.time,
                price: order.price,
                volume: -order.volume,
                side: Side::Sell,
                remain_vol: new_vol,
                remain_cost: new_cost,
            },
        );
        proof {
            let spec_post = spec_sell(old(self)@, order@).0;
            assert(self@.hold =~= spec_post.hold);
            assert(self@.transactions =~= spec_post.transactions);
            assert(self@ =~~= spec_post);
        }
        true
    }

    /// Mark the holding of `code` to `price`: refresh the position snapshot,
    /// move the portfolio value by the difference, and recompute the total
    /// balance as available + portfolio + frozen. A silent no-op for an
    /// unknown code.
    pub fn on_price_change(&mut self, code: &str, price: i64)
        requires
            old(self)@.wf(),
            code.spec_bytes().len() <= 8,
            price >= 0,
            mark_fits(old(self)@, code_of(code.spec_bytes()), price as int),
        ensures
            final(self)@ == spec_mark(old(self)@, code_of(code.spec_bytes()), price as int),
            final(self)@.wf(),
            has_position(old(self)@.hold, code_of(code.spec_bytes())) ==> final(self).balance
                == final(self).available_balance + final(self).freeze_balance + final(self).portfolio_value,
            !has_position(old(self)@.hold, code_of(code.spec_bytes())) ==> final(self)@ == old(self)@,
    {
        let sc = StockCode::from(code);
        if let Some(i) = self.position_index(sc) {
            let p = self.hold[i];
            proof {
                lemma_mul_nonnegative(price as int, p.volume as int);
            }
            let after = price * p.volume;
            self.portfolio_value = self.portfolio_value + (after - p.market_value);
            self.hold.set(i, Position { current_price: price, market_value: after, ..p });
            self.balance = self.available_balance + self.portfolio_value + self.freeze_balance;
            proof {
                let spec_post = spec_mark(old(self)@, code_of(code.spec_bytes()), price as int);
                assert(self@.hold =~= spec_post.hold);
                assert(self@ =~~= spec_post);
            }
        }
    }

    /// A new trading session has begun for `code`: the whole holding becomes
    /// sellable. A no-op for an unknown code.
    pub fn settle(&mut self, code: StockCode)
        requires
            old(self)@.wf(),
        ensures
            final(self)@ == spec_release(old(self)@, code),
            final(self)@.wf(),
    {
        if let Some(i) = self.position_index(code) {
            let p = self.hold[i];
            self.hold.set(i, Position { available_vol: p.volume, ..p });
            proof {
                let spec_post = spec_release(old(self)@, code);
                assert(self@.hold =~= spec_post.hold);
                assert(self@ =~~= spec_post);
            }
        }
    }

    /// Order cancellation is intentionally unimplemented: the immediate-fill
    /// model keeps no order identity to cancel against, so nothing is ever
    /// cancelled and the ledger is left untouched.
    pub fn cancel_order(&mut self) -> (r: Option<Transaction>)
        ensures
            r is None,
            *final(self) == *old(self),
    {
        None
    }
}

impl Default for Account {
    /// An empty ledger: no cash, no positions, no history.
    fn default() -> (a: Account)
        ensures
            a.balance == 0,
            a.freeze_balance == 0,
            a.available_balance == 0,
            a.portfolio_value == 0,
            a.profit == 0,
            a@.hold == Seq::<PositionV>::empty(),
            a@.transactions == Seq::<TransactionV>::empty(),
            a@.orders == Seq::<OrderV>::empty(),
            a@.wf(),
    {
        let a = Account {
            balance: 0,
            freeze_balance: 0,
            available_balance: 0,
            portfolio_value: 0,
            profit: 0,
            hold: Vec::new(),
            transactions: Vec::new(),
            orders: Vec::new(),
        };
        proof {
            assert(a@.hold =~= Seq::<PositionV>::empty());
            assert(a@.transactions =~= Seq::<TransactionV>::empty());
            assert(a@.orders =~= Seq::<OrderV>::empty());
        }
        a
    }
}

} // verus!
