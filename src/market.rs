use vstd::prelude::*;
use crate::candle::{Candle, CandleHistory, CandleInterval};
use crate::order::{MarketDepth, OrderBookSnapshot, depth_side};
use crate::ticker::Ticker;
use crate::trade::{Trade, TradeSide, vwap_exec, vwap_of};
use crate::types::{notional, Price, Symbol, BEAR, BULL, FIXED_SCALE, NEUTRAL};

verus! {

/// Capacity of the recent-trades buffer.
pub const MAX_TRADES: usize = 100;

/// Capacity of the candle history.
pub const MAX_CANDLES: usize = 200;

/// How many of the most recent trades the derived values look at.
pub const RECENT_WINDOW: usize = 50;

/// `s` cut to its first `cap` elements.
pub open spec fn bounded<T>(s: Seq<T>, cap: int) -> Seq<T> {
    if s.len() > cap {
        s.take(cap)
    } else {
        s
    }
}

/// The trade buffer after one more trade: newest first, at most `MAX_TRADES`.
pub open spec fn with_trade(buf: Seq<Trade>, t: Trade) -> Seq<Trade> {
    bounded(seq![t] + buf, MAX_TRADES as int)
}

/// The trade buffer after adding each trade of `ts` in order, one at a time.
pub open spec fn with_trades_one_by_one(buf: Seq<Trade>, ts: Seq<Trade>) -> Seq<Trade>
    decreases ts.len(),
{
    if ts.len() == 0 {
        buf
    } else {
        with_trade(with_trades_one_by_one(buf, ts.drop_last()), ts.last())
    }
}

/// `s` in reverse order.
pub open spec fn reversed<T>(s: Seq<T>) -> Seq<T> {
    Seq::new(s.len(), |i: int| s[s.len() - 1 - i])
}

/// The candle history after one candle update: the open last candle with the
/// same open time is replaced; any other candle is appended, and the oldest
/// is dropped when that passes `MAX_CANDLES`.
pub open spec fn with_candle(s: Seq<Candle>, c: Candle) -> Seq<Candle> {
    if s.len() > 0 && s.last().timestamp == c.timestamp && !s.last().is_closed {
        s.update(s.len() - 1, c)
    } else if s.len() + 1 > MAX_CANDLES {
        s.push(c).drop_first()
    } else {
        s.push(c)
    }
}

proof fn lemma_bounded_cons(t: Trade, x: Seq<Trade>)
    ensures
        bounded(seq![t] + bounded(x, MAX_TRADES as int), MAX_TRADES as int) == bounded(
            seq![t] + x,
            MAX_TRADES as int,
        ),
{
    assert(bounded(seq![t] + bounded(x, MAX_TRADES as int), MAX_TRADES as int) =~= bounded(
        seq![t] + x,
        MAX_TRADES as int,
    ));
}

/// Adding trades one at a time keeps the newest `MAX_TRADES` of them and of
/// the old buffer, newest first.
pub proof fn lemma_trades_one_by_one(buf: Seq<Trade>, ts: Seq<Trade>)
    requires
        ts.len() > 0,
    ensures
        with_trades_one_by_one(buf, ts) == bounded(reversed(ts) + buf, MAX_TRADES as int),
    decreases ts.len(),
{
    if ts.len() == 1 {
        assert(ts.drop_last().len() == 0);
        assert(with_trades_one_by_one(buf, ts.drop_last()) == buf);
        assert(with_trades_one_by_one(buf, ts) == with_trade(buf, ts.last()));
        assert(reversed(ts) + buf =~= seq![ts.last()] + buf);
    } else {
        let init = ts.drop_last();
        lemma_trades_one_by_one(buf, init);
        lemma_bounded_cons(ts.last(), reversed(init) + buf);
        assert(with_trades_one_by_one(buf, ts) == with_trade(with_trades_one_by_one(buf, init), ts.last()));
        assert(seq![ts.last()] + (reversed(init) + buf) =~= reversed(ts) + buf);
    }
}

/// After at least `MAX_TRADES` trades added one at a time, the buffer holds
/// exactly the last `MAX_TRADES` of them, newest first.
pub proof fn law_trade_buffer_keeps_newest(buf: Seq<Trade>, ts: Seq<Trade>)
    requires
        ts.len() >= MAX_TRADES,
    ensures
        with_trades_one_by_one(buf, ts).len() == MAX_TRADES,
        forall|i: int|
            0 <= i < MAX_TRADES ==> #[trigger] with_trades_one_by_one(buf, ts)[i] == ts[ts.len()
                - 1 - i],
{
    lemma_trades_one_by_one(buf, ts);
}

/// A closed last candle is never replaced: the next update appends.
pub proof fn law_closed_candle_stays(s: Seq<Candle>, c: Candle)
    requires
        s.len() > 0,
        s.last().is_closed,
        s.len() < MAX_CANDLES,
    ensures
        with_candle(s, c).len() == s.len() + 1,
        with_candle(s, c)[s.len() - 1] == s.last(),
        with_candle(s, c).last() == c,
{
}

/// Taking in a closed candle, then a candle with a new open time, grows the
/// history by one past the closed candle, which no later update changes.
pub proof fn law_closed_then_new_candle(s: Seq<Candle>, closed: Candle, next: Candle, late: Candle)
    requires
        closed.is_closed,
        next.timestamp != closed.timestamp,
        s.len() + 3 <= MAX_CANDLES,
    ensures
        with_candle(with_candle(s, closed), next).len() == with_candle(s, closed).len() + 1,
        with_candle(with_candle(s, closed), next)[with_candle(s, closed).len() - 1] == closed,
        with_candle(with_candle(with_candle(s, closed), next), late)[with_candle(s, closed).len() - 1]
            == closed,
{
    let h1 = with_candle(s, closed);
    let h2 = with_candle(h1, next);
    assert(h1.last() == closed);
    assert(h2.len() == h1.len() + 1);
    assert(h2[h1.len() - 1] == closed);
    let h3 = with_candle(h2, late);
    assert(h3[h1.len() - 1] == h2[h1.len() - 1]);
}

/// Times of the last update of each kind of data, in milliseconds.
#[derive(Debug, Clone, Copy, PartialEq, Eq, Structural)]
pub struct LastUpdate {
    pub ticker: i64,
    pub orderbook: i64,
    pub trade: i64,
    pub candle: i64,
}

impl LastUpdate {
    /// Nothing updated yet.
    pub fn new() -> (r: LastUpdate)
        ensures
            r == (LastUpdate { ticker: 0, orderbook: 0, trade: 0, candle: 0 }),
    {
        LastUpdate { ticker: 0, orderbook: 0, trade: 0, candle: 0 }
    }
}

/// Direction of the 24-hour price change.
#[derive(Debug, Clone, Copy, PartialEq, Eq, Structural)]
pub enum PriceDirection {
    Up,
    Down,
    Unchanged,
}

impl PriceDirection {
    pub fn css_class(&self) -> (r: &'static str)
        ensures
            r@ == (match *self {
                PriceDirection::Up => "price-up"@,
                PriceDirection::Down => "price-down"@,
                PriceDirection::Unchanged => "price-unchanged"@,
            }),
    {
        match self {
            PriceDirection::Up => "price-up",
            PriceDirection::Down => "price-down",
            PriceDirection::Unchanged => "price-unchanged",
        }
    }

    pub fn color(&self) -> (r: &'static str)
        ensures
            r == (match *self {
                PriceDirection::Up => BULL,
                PriceDirection::Down => BEAR,
                PriceDirection::Unchanged => NEUTRAL,
            }),
    {
        match self {
            PriceDirection::Up => BULL,
            PriceDirection::Down => BEAR,
            PriceDirection::Unchanged => NEUTRAL,
        }
    }

    pub fn arrow(&self) -> (r: &'static str)
        ensures
            r@ == (match *self {
                PriceDirection::Up => "\u{25B2}"@,
                PriceDirection::Down => "\u{25BC}"@,
                PriceDirection::Unchanged => "\u{25CF}"@,
            }),
    {
        match self {
            PriceDirection::Up => "\u{25B2}",
            PriceDirection::Down => "\u{25BC}",
            PriceDirection::Unchanged => "\u{25CF}",
        }
    }
}

impl Default for PriceDirection {
    fn default() -> (r: Self)
        ensures
            r == PriceDirection::Unchanged,
    {
        PriceDirection::Unchanged
    }
}

/// The live market data of one symbol: latest ticker, order book and its
/// depth, recent trades (newest first) and candle history.
#[derive(Debug)]
pub struct MarketState {
    pub symbol: Symbol,
    pub ticker: Option<Ticker>,
    pub orderbook: Option<OrderBookSnapshot>,
    pub depth: Option<MarketDepth>,
    pub trades: Vec<Trade>,
    pub candles: CandleHistory,
    pub interval: CandleInterval,
    pub last_update: LastUpdate,
}

impl MarketState {
    /// A stored order book stays within the level limits.
    pub open spec fn wf(&self) -> bool {
        match self.orderbook {
            Some(b) => b.within_limits_spec(),
            None => true,
        }
    }

    /// Whether a stored order book stays within the level limits.
    pub fn is_well_formed(&self) -> (r: bool)
        ensures
            r == self.wf(),
    {
        match &self.orderbook {
            Some(b) => b.within_limits(),
            None => true,
        }
    }

    /// `self` and `o` differ at most in the trade buffer.
    pub open spec fn same_but_trades(&self, o: &MarketState) -> bool {
        &&& self.symbol == o.symbol
        &&& self.ticker == o.ticker
        &&& self.orderbook == o.orderbook
        &&& self.depth == o.depth
        &&& self.candles == o.candles
        &&& self.interval == o.interval
    }

    /// Market data cleared for `symbol` and `interval`.
    pub open spec fn is_reset_to(&self, symbol: Symbol, interval: CandleInterval) -> bool {
        &&& self.symbol == symbol
        &&& self.interval == interval
        &&& self.ticker.is_none()
        &&& self.orderbook.is_none()
        &&& self.depth.is_none()
        &&& self.trades@.len() == 0
        &&& self.candles.symbol == symbol
        &&& self.candles.interval == interval
        &&& self.candles.candles@.len() == 0
    }

    /// An empty state for `BTC-USD` at one-minute candles.
    pub fn new() -> (r: MarketState)
        ensures
            r.wf(),
            r.symbol.0@ == "BTC-USD"@,
            r.is_reset_to(r.symbol, CandleInterval::M1),
            r.last_update == (LastUpdate { ticker: 0, orderbook: 0, trade: 0, candle: 0 }),
    {
        let symbol = Symbol::new(String::from_str("BTC-USD"));
        let sym2 = symbol.clone();
        MarketState {
            symbol,
            ticker: None,
            orderbook: None,
            depth: None,
            trades: Vec::with_capacity(MAX_TRADES),
            candles: CandleHistory::new(sym2, CandleInterval::M1),
            interval: CandleInterval::M1,
            last_update: LastUpdate { ticker: 0, orderbook: 0, trade: 0, candle: 0 },
        }
    }

    /// Replaces the ticker.
    pub fn update_ticker(&mut self, ticker: Ticker)
        ensures
            final(self).ticker == Some(ticker),
            final(self).last_update == (LastUpdate { ticker: ticker.timestamp, ..old(self).last_update }),
            final(self).same_but_ticker(old(self)),
            final(self).trades@ == old(self).trades@,
    {
        self.last_update.ticker = ticker.timestamp;
        self.ticker = Some(ticker);
    }

    pub open spec fn same_but_ticker(&self, o: &MarketState) -> bool {
        &&& self.symbol == o.symbol
        &&& self.orderbook == o.orderbook
        &&& self.depth == o.depth
        &&& self.candles == o.candles
        &&& self.interval == o.interval
    }

    pub open spec fn same_but_book(&self, o: &MarketState) -> bool {
        &&& self.symbol == o.symbol
        &&& self.ticker == o.ticker
        &&& self.candles == o.candles
        &&& self.interval == o.interval
        &&& self.trades@ == o.trades@
    }

    /// Last traded price of the ticker.
    pub fn current_price(&self) -> (r: Option<Price>)
        ensures
            r == (match self.ticker {
                Some(t) => Some(t.last_price),
                None => None::<Price>,
            }),
    {
        match &self.ticker {
            Some(t) => Some(t.last_price),
            None => None,
        }
    }

    /// Replaces the order book and, together with it, the depth derived from it.
    pub fn update_orderbook(&mut self, book: OrderBookSnapshot)
        requires
            book.within_limits_spec(),
        ensures
            final(self).orderbook == Some(book),
            final(self).depth.is_some(),
            final(self).depth.unwrap().symbol == book.symbol,
            final(self).depth.unwrap().bid_depth@ == depth_side(book.bids@),
            final(self).depth.unwrap().ask_depth@ == depth_side(book.asks@),
            final(self).last_update == (LastUpdate { orderbook: book.timestamp, ..old(self).last_update }),
            final(self).same_but_book(old(self)),
            final(self).wf(),
    {
        let depth = MarketDepth::from_orderbook(&book);
        self.last_update.orderbook = book.timestamp;
        self.depth = Some(depth);
        self.orderbook = Some(book);
    }

    pub fn mid_price(&self) -> (r: Option<Price>)
        ensures
            r == (match self.orderbook {
                Some(b) => if b.bids@.len() > 0 && b.asks@.len() > 0 {
                    Some(Price(((b.bids@[0].price.0 + b.asks@[0].price.0) / 2) as u64))
                } else {
                    None::<Price>
                },
                None => None::<Price>,
            }),
    {
        match &self.orderbook {
            Some(b) => b.mid_price(),
            None => None,
        }
    }

    pub fn spread(&self) -> (r: Option<i128>)
        ensures
            r == (match self.orderbook {
                Some(b) => if b.bids@.len() > 0 && b.asks@.len() > 0 {
                    Some((b.asks@[0].price.0 - b.bids@[0].price.0) as i128)
                } else {
                    None::<i128>
                },
                None => None::<i128>,
            }),
    {
        match &self.orderbook {
            Some(b) => b.spread(),
            None => None,
        }
    }

    /// Imbalance of the stored book; zero without one.
    pub fn imbalance(&self) -> (r: i128)
        requires
            self.wf(),
        ensures
            r == (match self.orderbook {
                Some(b) => b.imbalance_spec(),
                None => 0,
            }),
            -(FIXED_SCALE as int) <= r <= FIXED_SCALE,
    {
        match &self.orderbook {
            Some(b) => b.imbalance(),
            None => 0,
        }
    }

    /// Puts `trade` at the head of the buffer and trims the buffer to
    /// `MAX_TRADES`.
    pub fn add_trade(&mut self, trade: Trade)
        ensures
            final(self).trades@ == with_trade(old(self).trades@, trade),
            final(self).last_update == (LastUpdate { trade: trade.timestamp, ..old(self).last_update }),
            final(self).same_but_trades(old(self)),
    {
        self.last_update.trade = trade.timestamp;
        self.trades.insert(0, trade);
        self.trades.truncate(MAX_TRADES);
        proof {
            assert(old(self).trades@.insert(0, trade) =~= seq![trade] + old(self).trades@);
        }
    }

    /// Puts `batch`, in its own order, at the head of the buffer and trims the
    /// buffer to `MAX_TRADES`; an empty batch changes nothing.
    pub fn add_trades(&mut self, batch: Vec<Trade>)
        ensures
            batch@.len() == 0 ==> *final(self) == *old(self),
            batch@.len() > 0 ==> final(self).trades@ == bounded(batch@ + old(self).trades@, MAX_TRADES as int),
            batch@.len() > 0 ==> final(self).last_update == (LastUpdate { trade: batch@[0].timestamp, ..old(self).last_update }),
            final(self).same_but_trades(old(self)),
    {
        if batch.len() == 0 {
            return;
        }
        self.last_update.trade = batch[0].timestamp;
        let mut batch = batch;
        let mut old_trades: Vec<Trade> = Vec::new();
        std::mem::swap(&mut old_trades, &mut self.trades);
        batch.append(&mut old_trades);
        batch.truncate(MAX_TRADES);
        self.trades = batch;
    }

    /// The newest trade.
    pub fn latest_trade(&self) -> (r: Option<&Trade>)
        ensures
            r == (if self.trades@.len() > 0 { Some(&self.trades@[0]) } else { None }),
    {
        if self.trades.len() > 0 {
            Some(&self.trades[0])
        } else {
            None
        }
    }

    /// Copies of the `n` newest trades, newest first.
    pub fn recent_trades(&self, n: usize) -> (r: Vec<Trade>)
        ensures
            r@ == self.trades@.take(if n < self.trades@.len() { n as int } else { self.trades@.len() as int }),
    {
        let len = self.trades.len();
        let k = if n < len {
            n
        } else {
            len
        };
        let mut out: Vec<Trade> = Vec::with_capacity(k);
        let mut i: usize = 0;
        while i < k
            invariant
                k <= len,
                len == self.trades@.len(),
                i <= k,
                out@ == self.trades@.take(i as int),
            decreases k - i,
        {
            out.push(self.trades[i].clone());
            proof {
                assert(self.trades@.take(i + 1) =~= self.trades@.take(i as int).push(self.trades@[i as int]));
            }
            i = i + 1;
        }
        out
    }

    /// Replaces the open last candle of the same open time, or appends the
    /// candle and evicts the oldest beyond `MAX_CANDLES`.
    pub fn update_candle(&mut self, candle: Candle)
        ensures
            final(self).candles.candles@ == with_candle(old(self).candles.candles@, candle),
            final(self).candles.symbol == old(self).candles.symbol,
            final(self).candles.interval == old(self).candles.interval,
            final(self).last_update == (LastUpdate { candle: candle.timestamp, ..old(self).last_update }),
            final(self).symbol == old(self).symbol,
            final(self).ticker == old(self).ticker,
            final(self).orderbook == old(self).orderbook,
            final(self).depth == old(self).depth,
            final(self).trades@ == old(self).trades@,
            final(self).interval == old(self).interval,
    {
        self.last_update.candle = candle.timestamp;
        let n = self.candles.candles.len();
        if n > 0 {
            let replace = {
                let last = &self.candles.candles[n - 1];
                last.timestamp == candle.timestamp && !last.is_closed
            };
            if replace {
                self.candles.candles.pop();
                self.candles.candles.push(candle);
                proof {
                    assert(self.candles.candles@ =~= old(self).candles.candles@.update(n - 1, candle));
                }
                return;
            }
        }
        self.candles.candles.push(candle);
        if self.candles.candles.len() > MAX_CANDLES {
            self.candles.candles.remove(0);
            proof {
                assert(self.candles.candles@ =~= old(self).candles.candles@.push(candle).drop_first());
            }
        }
    }

    /// Replaces the whole candle history, keyed to the current symbol and interval.
    pub fn set_candles(&mut self, candles: Vec<Candle>)
        ensures
            final(self).candles.candles@ == candles@,
            final(self).candles.symbol == old(self).symbol,
            final(self).candles.interval == old(self).interval,
            candles@.len() > 0 ==> final(self).last_update == (LastUpdate { candle: candles@.last().timestamp, ..old(self).last_update }),
            candles@.len() == 0 ==> final(self).last_update == old(self).last_update,
            final(self).symbol == old(self).symbol,
            final(self).ticker == old(self).ticker,
            final(self).orderbook == old(self).orderbook,
            final(self).depth == old(self).depth,
            final(self).trades@ == old(self).trades@,
            final(self).interval == old(self).interval,
    {
        let n = candles.len();
        if n > 0 {
            self.last_update.candle = candles[n - 1].timestamp;
        }
        self.candles = CandleHistory { symbol: self.symbol.clone(), interval: self.interval, candles };
    }

    /// Switches to `symbol` and clears all market data.
    pub fn set_symbol(&mut self, symbol: Symbol)
        ensures
            final(self).is_reset_to(symbol, old(self).interval),
            final(self).last_update == old(self).last_update,
            final(self).wf(),
    {
        let s2 = symbol.clone();
        self.symbol = symbol;
        self.ticker = None;
        self.orderbook = None;
        self.depth = None;
        self.trades = Vec::new();
        self.candles = CandleHistory::new(s2, self.interval);
    }

    /// Switches to `interval` and clears all market data.
    pub fn set_interval(&mut self, interval: CandleInterval)
        ensures
            final(self).is_reset_to(old(self).symbol, interval),
            final(self).last_update == old(self).last_update,
            final(self).wf(),
    {
        self.interval = interval;
        self.ticker = None;
        self.orderbook = None;
        self.depth = None;
        self.trades = Vec::new();
        self.candles = CandleHistory::new(self.symbol.clone(), interval);
    }

    /// Clears all market data, keeping the symbol and the interval.
    pub fn clear(&mut self)
        ensures
            final(self).is_reset_to(old(self).symbol, old(self).interval),
            final(self).last_update == old(self).last_update,
            final(self).wf(),
    {
        self.ticker = None;
        self.orderbook = None;
        self.depth = None;
        self.trades = Vec::new();
        self.candles = CandleHistory::new(self.symbol.clone(), self.interval);
    }
}

/// Sum of the traded values of `s`.
pub open spec fn sum_trade_value(s: Seq<Trade>) -> nat
    decreases s.len(),
{
    if s.len() == 0 {
        0
    } else {
        sum_trade_value(s.drop_last()) + notional(s.last().price.0, s.last().quantity.0)
    }
}

/// Sum of the quantities of `s`.
pub open spec fn sum_trade_qty(s: Seq<Trade>) -> nat
    decreases s.len(),
{
    if s.len() == 0 {
        0
    } else {
        sum_trade_qty(s.drop_last()) + s.last().quantity.0 as nat
    }
}

/// Number of buys in `s`.
pub open spec fn count_buys(s: Seq<Trade>) -> nat
    decreases s.len(),
{
    if s.len() == 0 {
        0
    } else {
        count_buys(s.drop_last()) + if s.last().side == TradeSide::Buy { 1nat } else { 0nat }
    }
}

/// The trades the derived values look at: the newest `RECENT_WINDOW`.
pub open spec fn recent_window(s: Seq<Trade>) -> Seq<Trade> {
    bounded(s, RECENT_WINDOW as int)
}

proof fn lemma_trade_sums_bound(s: Seq<Trade>)
    ensures
        sum_trade_qty(s) <= s.len() * 0xffff_ffff_ffff_ffff,
        sum_trade_value(s) <= s.len() * 0x40_0000_0000_0000_0000_0000_0000,
        count_buys(s) <= s.len(),
    decreases s.len(),
{
    if s.len() > 0 {
        lemma_trade_sums_bound(s.drop_last());
        let p = s.last().price.0 as nat;
        let q = s.last().quantity.0 as nat;
        assert(p * q <= 0xffff_ffff_ffff_ffff * 0xffff_ffff_ffff_ffff) by (nonlinear_arith)
            requires
                p <= 0xffff_ffff_ffff_ffff,
                q <= 0xffff_ffff_ffff_ffff,
        ;
        let x = p * q;
        assert(x / 100_000_000 <= 0x40_0000_0000_0000_0000_0000_0000) by (nonlinear_arith)
            requires
                x <= 0xffff_ffff_ffff_ffff * 0xffff_ffff_ffff_ffff,
        ;
    }
}

/// Values derived from the store for display.
#[derive(Debug, Clone, Copy)]
pub struct MarketComputed {
    pub price_direction: PriceDirection,
    /// Order-book imbalance, in the fixed-point scale.
    pub imbalance: i128,
    /// Volume-weighted price of the recent trades, raw fixed-point.
    pub vwap: u128,
    /// Share of buys among the recent trades, in the fixed-point scale.
    pub buy_ratio: u128,
}

impl MarketComputed {
    /// Derives every value from the current state.
    pub fn new(state: &MarketState) -> (r: MarketComputed)
        requires
            state.wf(),
        ensures
            r.price_direction == direction_of(state.ticker),
            r.imbalance == (match state.orderbook {
                Some(b) => b.imbalance_spec(),
                None => 0,
            }),
            r.vwap == vwap_of_trades(recent_window(state.trades@)),
            r.buy_ratio == buy_ratio_of(recent_window(state.trades@)),
    {
        let imbalance = match &state.orderbook {
            Some(b) => b.imbalance(),
            None => 0,
        };
        MarketComputed {
            price_direction: state.price_direction(),
            imbalance,
            vwap: state.recent_vwap(),
            buy_ratio: state.buy_ratio(),
        }
    }
}

/// Up, down or unchanged by the sign of the ticker's 24-hour change.
pub open spec fn direction_of(t: Option<Ticker>) -> PriceDirection {
    match t {
        Some(t) => if t.change_24h > 0 {
            PriceDirection::Up
        } else if t.change_24h < 0 {
            PriceDirection::Down
        } else {
            PriceDirection::Unchanged
        },
        None => PriceDirection::Unchanged,
    }
}

/// Total value over total quantity of `s`; zero without quantity.
pub open spec fn vwap_of_trades(s: Seq<Trade>) -> u128 {
    if sum_trade_qty(s) == 0 {
        0
    } else {
        vwap_of(sum_trade_value(s) as u128, sum_trade_qty(s) as u128)
    }
}

/// Buys over all trades of `s`, in the fixed-point scale; one half for none.
pub open spec fn buy_ratio_of(s: Seq<Trade>) -> u128 {
    if s.len() == 0 {
        (FIXED_SCALE / 2) as u128
    } else {
        (count_buys(s) * FIXED_SCALE / (s.len() as int)) as u128
    }
}

impl MarketState {
    pub fn price_direction(&self) -> (r: PriceDirection)
        ensures
            r == direction_of(self.ticker),
    {
        match &self.ticker {
            Some(t) => if t.change_24h > 0 {
                PriceDirection::Up
            } else if t.change_24h < 0 {
                PriceDirection::Down
            } else {
                PriceDirection::Unchanged
            },
            None => PriceDirection::Unchanged,
        }
    }

    /// Volume-weighted price of the newest `RECENT_WINDOW` trades.
    pub fn recent_vwap(&self) -> (r: u128)
        ensures
            r == vwap_of_trades(recent_window(self.trades@)),
    {
        let len = self.trades.len();
        let k = if len < RECENT_WINDOW {
            len
        } else {
            RECENT_WINDOW
        };
        let ghost w = recent_window(self.trades@);
        assert(w =~= self.trades@.take(k as int));
        let mut value: u128 = 0;
        let mut qty: u128 = 0;
        let mut i: usize = 0;
        while i < k
            invariant
                k <= RECENT_WINDOW,
                k <= len,
                len == self.trades@.len(),
                i <= k,
                w == self.trades@.take(k as int),
                value == sum_trade_value(w.take(i as int)),
                qty == sum_trade_qty(w.take(i as int)),
            decreases k - i,
        {
            proof {
                assert(w.take(i + 1).drop_last() =~= w.take(i as int));
                lemma_trade_sums_bound(w.take(i + 1));
                let j = (i + 1) as int;
                assert(j * 0x40_0000_0000_0000_0000_0000_0000 <= 50 * 0x40_0000_0000_0000_0000_0000_0000) by (nonlinear_arith)
                    requires
                        j <= 50,
                ;
                assert(j * 0xffff_ffff_ffff_ffff <= 50 * 0xffff_ffff_ffff_ffff) by (nonlinear_arith)
                    requires
                        j <= 50,
                ;
            }
            let t = &self.trades[i];
            value = value + t.value();
            qty = qty + t.quantity.0 as u128;
            i = i + 1;
        }
        assert(w.take(k as int) =~= w);
        if qty == 0 {
            0
        } else {
            vwap_exec(value, qty)
        }
    }

    /// Share of buys among the newest `RECENT_WINDOW` trades.
    pub fn buy_ratio(&self) -> (r: u128)
        ensures
            r == buy_ratio_of(recent_window(self.trades@)),
    {
        let len = self.trades.len();
        if len == 0 {
            return (FIXED_SCALE / 2) as u128;
        }
        let k = if len < RECENT_WINDOW {
            len
        } else {
            RECENT_WINDOW
        };
        let ghost w = recent_window(self.trades@);
        assert(w =~= self.trades@.take(k as int));
        let mut buys: u128 = 0;
        let mut i: usize = 0;
        while i < k
            invariant
                k <= RECENT_WINDOW,
                k <= len,
                len == self.trades@.len(),
                i <= k,
                w == self.trades@.take(k as int),
                buys == count_buys(w.take(i as int)),
            decreases k - i,
        {
            proof {
                assert(w.take(i + 1).drop_last() =~= w.take(i as int));
                lemma_trade_sums_bound(w.take(i as int));
            }
            if self.trades[i].side.is_buy() {
                buys = buys + 1;
            }
            i = i + 1;
        }
        assert(w.take(k as int) =~= w);
        proof {
            lemma_trade_sums_bound(w);
        }
        assert(buys <= 50);
        buys * 100_000_000u128 / (k as u128)
    }
}

} // verus!
