use vstd::prelude::*;
use crate::outside::{new_trade_id, now_millis};
use crate::text::{clock_text, clock_text_millis, push_clock, push_clock_millis};
use crate::types::{capped, notional, notional_of, scaled_ratio, scaled_ratio_of, Price, Quantity, Symbol, BEAR, BULL, FIXED_SCALE};

verus! {

/// How notable a trade is by its value.
#[derive(Debug, Clone, Copy, PartialEq, Eq, Structural)]
pub enum TradeClassification {
    Normal,
    Large,
    Whale,
    MicroTrade,
}

impl TradeClassification {
    pub open spec fn css_class_spec(&self) -> Seq<char> {
        match self {
            TradeClassification::Normal => "trade-normal"@,
            TradeClassification::Large => "trade-large"@,
            TradeClassification::Whale => "trade-whale"@,
            TradeClassification::MicroTrade => "trade-micro"@,
        }
    }

    pub fn css_class(&self) -> (r: &'static str)
        ensures
            r@ == self.css_class_spec(),
    {
        match self {
            TradeClassification::Normal => "trade-normal",
            TradeClassification::Large => "trade-large",
            TradeClassification::Whale => "trade-whale",
            TradeClassification::MicroTrade => "trade-micro",
        }
    }

    /// A whale or a chart icon for the two largest classes.
    pub fn icon(&self) -> (r: Option<&'static str>)
        ensures
            *self == TradeClassification::Whale ==> r.is_some() && r.unwrap()@ == "\u{1F40B}"@,
            *self == TradeClassification::Large ==> r.is_some() && r.unwrap()@ == "\u{1F4C8}"@,
            *self == TradeClassification::Normal || *self == TradeClassification::MicroTrade
                ==> r.is_none(),
    {
        match self {
            TradeClassification::Whale => Some("\u{1F40B}"),
            TradeClassification::Large => Some("\u{1F4C8}"),
            _ => None,
        }
    }
}

/// Side of the taker of a trade.
#[derive(Debug, Clone, Copy, PartialEq, Eq, Structural)]
pub enum TradeSide {
    Buy,
    Sell,
}

impl TradeSide {
    pub fn is_buy(&self) -> (r: bool)
        ensures
            r == (*self == TradeSide::Buy),
    {
        match self {
            TradeSide::Buy => true,
            TradeSide::Sell => false,
        }
    }

    pub fn is_sell(&self) -> (r: bool)
        ensures
            r == (*self == TradeSide::Sell),
    {
        match self {
            TradeSide::Buy => false,
            TradeSide::Sell => true,
        }
    }

    pub fn css_class(&self) -> (r: &'static str)
        ensures
            r@ == (if *self == TradeSide::Buy { "trade-buy"@ } else { "trade-sell"@ }),
    {
        match self {
            TradeSide::Buy => "trade-buy",
            TradeSide::Sell => "trade-sell",
        }
    }

    pub fn color(&self) -> (r: &'static str)
        ensures
            r == (if *self == TradeSide::Buy { BULL } else { BEAR }),
    {
        match self {
            TradeSide::Buy => BULL,
            TradeSide::Sell => BEAR,
        }
    }

    pub fn label(&self) -> (r: &'static str)
        ensures
            r@ == (if *self == TradeSide::Buy { "BUY"@ } else { "SELL"@ }),
    {
        match self {
            TradeSide::Buy => "BUY",
            TradeSide::Sell => "SELL",
        }
    }

    pub fn arrow(&self) -> (r: &'static str)
        ensures
            r@ == (if *self == TradeSide::Buy { "\u{25B2}"@ } else { "\u{25BC}"@ }),
    {
        match self {
            TradeSide::Buy => "\u{25B2}",
            TradeSide::Sell => "\u{25BC}",
        }
    }

    pub fn opposite(&self) -> (r: TradeSide)
        ensures
            r == (if *self == TradeSide::Buy { TradeSide::Sell } else { TradeSide::Buy }),
    {
        match self {
            TradeSide::Buy => TradeSide::Sell,
            TradeSide::Sell => TradeSide::Buy,
        }
    }
}

impl Default for TradeSide {
    fn default() -> (r: Self)
        ensures
            r == TradeSide::Buy,
    {
        TradeSide::Buy
    }
}

/// One executed trade.
#[derive(Debug)]
pub struct Trade {
    pub id: String,
    pub symbol: Symbol,
    pub price: Price,
    pub quantity: Quantity,
    pub side: TradeSide,
    /// Milliseconds since the Unix epoch.
    pub timestamp: i64,
    pub maker_order_id: Option<String>,
    pub taker_order_id: Option<String>,
}

fn clone_opt_string(s: &Option<String>) -> (r: Option<String>)
    ensures
        r == *s,
{
    match s {
        Some(t) => Some(t.clone()),
        None => None,
    }
}

impl Clone for Trade {
    fn clone(&self) -> (r: Self)
        ensures
            r == *self,
    {
        Trade {
            id: self.id.clone(),
            symbol: self.symbol.clone(),
            price: self.price,
            quantity: self.quantity,
            side: self.side,
            timestamp: self.timestamp,
            maker_order_id: clone_opt_string(&self.maker_order_id),
            taker_order_id: clone_opt_string(&self.taker_order_id),
        }
    }
}

impl Trade {
    /// A trade stamped now, with a fresh random id.
    pub fn new(symbol: Symbol, price: Price, quantity: Quantity, side: TradeSide) -> (r: Trade)
        ensures
            r.symbol == symbol,
            r.price == price,
            r.quantity == quantity,
            r.side == side,
            r.id@.len() == 36,
            r.maker_order_id.is_none(),
            r.taker_order_id.is_none(),
    {
        Trade {
            id: new_trade_id(),
            symbol,
            price,
            quantity,
            side,
            timestamp: now_millis(),
            maker_order_id: None,
            taker_order_id: None,
        }
    }

    pub fn with_maker(self, order_id: String) -> (r: Trade)
        ensures
            r == (Trade { maker_order_id: Some(order_id), ..self }),
    {
        Trade { maker_order_id: Some(order_id), ..self }
    }

    pub fn with_taker(self, order_id: String) -> (r: Trade)
        ensures
            r == (Trade { taker_order_id: Some(order_id), ..self }),
    {
        Trade { taker_order_id: Some(order_id), ..self }
    }

    /// `price * quantity` in the fixed-point scale.
    pub fn value(&self) -> (r: u128)
        ensures
            r == notional(self.price.0, self.quantity.0),
    {
        notional_of(self.price.0, self.quantity.0)
    }

    pub fn classify_with<C: TradeClassifier>(&self, classifier: &C) -> (r: TradeClassification)
        ensures
            r == classifier.classify_spec(*self),
    {
        classifier.classify(self)
    }

    /// Whale by the default thresholds.
    pub fn is_whale(&self) -> (r: bool)
        ensures
            r == (notional(self.price.0, self.quantity.0) >= WHALE_VALUE),
    {
        let c = ValueThresholdClassifier::default();
        match self.classify_with(&c) {
            TradeClassification::Whale => true,
            _ => false,
        }
    }

    /// Time of day of the trade, UTC, as `HH:MM:SS.mmm`.
    pub fn time_str(&self) -> (r: String)
        ensures
            r@ == clock_text_millis(self.timestamp as int),
    {
        let mut out = String::new();
        push_clock_millis(&mut out, self.timestamp);
        assert(out@ =~= clock_text_millis(self.timestamp as int));
        out
    }

    /// Time of day of the trade, UTC, as `HH:MM:SS`.
    pub fn time_short(&self) -> (r: String)
        ensures
            r@ == clock_text(self.timestamp as int),
    {
        let mut out = String::new();
        push_clock(&mut out, self.timestamp);
        assert(out@ =~= clock_text(self.timestamp as int));
        out
    }

    /// Milliseconds since the trade, by the wall clock; saturating.
    pub fn age_ms(&self) -> (r: i64) {
        let d = now_millis() as i128 - self.timestamp as i128;
        if d > i64::MAX as i128 {
            i64::MAX
        } else if d < i64::MIN as i128 {
            i64::MIN
        } else {
            d as i64
        }
    }
}

/// A way of classifying trades.
pub trait TradeClassifier {
    spec fn classify_spec(&self, trade: Trade) -> TradeClassification;

    fn classify(&self, trade: &Trade) -> (r: TradeClassification)
        ensures
            r == self.classify_spec(*trade),
    ;
}

/// Default whale threshold: a value of one million.
pub const WHALE_VALUE: u128 = 100_000_000_000_000;

/// Default large threshold: a value of one hundred thousand.
pub const LARGE_VALUE: u128 = 10_000_000_000_000;

/// Default micro threshold: a value under one hundred.
pub const MICRO_VALUE: u128 = 10_000_000_000;

/// Classes by traded value against three thresholds, in the fixed-point scale.
#[derive(Debug, Clone, Copy)]
pub struct ValueThresholdClassifier {
    pub whale_threshold: u128,
    pub large_threshold: u128,
    pub micro_threshold: u128,
}

/// The class of a trade of value `v`.
pub open spec fn class_of_value(c: ValueThresholdClassifier, v: nat) -> TradeClassification {
    if v >= c.whale_threshold {
        TradeClassification::Whale
    } else if v >= c.large_threshold {
        TradeClassification::Large
    } else if v < c.micro_threshold {
        TradeClassification::MicroTrade
    } else {
        TradeClassification::Normal
    }
}

impl Default for ValueThresholdClassifier {
    fn default() -> (r: Self)
        ensures
            r.whale_threshold == WHALE_VALUE,
            r.large_threshold == LARGE_VALUE,
            r.micro_threshold == MICRO_VALUE,
    {
        ValueThresholdClassifier {
            whale_threshold: WHALE_VALUE,
            large_threshold: LARGE_VALUE,
            micro_threshold: MICRO_VALUE,
        }
    }
}

impl TradeClassifier for ValueThresholdClassifier {
    open spec fn classify_spec(&self, trade: Trade) -> TradeClassification {
        class_of_value(*self, notional(trade.price.0, trade.quantity.0))
    }

    fn classify(&self, trade: &Trade) -> (r: TradeClassification) {
        let v = trade.value();
        if v >= self.whale_threshold {
            TradeClassification::Whale
        } else if v >= self.large_threshold {
            TradeClassification::Large
        } else if v < self.micro_threshold {
            TradeClassification::MicroTrade
        } else {
            TradeClassification::Normal
        }
    }
}

/// `v / q` in the fixed-point scale, rounded down: exact while `v * FIXED_SCALE`
/// fits in `u128`, else `(v / q) * FIXED_SCALE`, saturating.
pub open spec fn vwap_of(v: u128, q: u128) -> u128 {
    if v * FIXED_SCALE <= u128::MAX {
        (v * FIXED_SCALE / (q as int)) as u128
    } else {
        capped((v as int / q as int) * FIXED_SCALE, u128::MAX as int) as u128
    }
}

pub(crate) fn vwap_exec(v: u128, q: u128) -> (r: u128)
    requires
        q > 0,
    ensures
        r == vwap_of(v, q),
{
    match v.checked_mul(100_000_000u128) {
        Some(m) => m / q,
        None => match (v / q).checked_mul(100_000_000u128) {
            Some(x) => x,
            None => u128::MAX,
        },
    }
}

/// `(a - b) / (a + b)` in the fixed-point scale, rounded toward zero; zero
/// when both are zero. Sums past `2^96` are compared after dropping their low
/// 32 bits.
pub open spec fn balance_of(a: u128, b: u128) -> int {
    if a == 0 && b == 0 {
        0
    } else if a <= 0x1_0000_0000_0000_0000_0000_0000 && b <= 0x1_0000_0000_0000_0000_0000_0000 {
        scaled_ratio(a - b, a + b)
    } else {
        scaled_ratio(
            a / 0x1_0000_0000 - b / 0x1_0000_0000,
            a / 0x1_0000_0000 + b / 0x1_0000_0000,
        )
    }
}

fn balance_exec(a: u128, b: u128) -> (r: i128)
    ensures
        r == balance_of(a, b),
{
    if a == 0 && b == 0 {
        0
    } else if a <= 0x1_0000_0000_0000_0000_0000_0000 && b <= 0x1_0000_0000_0000_0000_0000_0000 {
        scaled_ratio_of(a as i128 - b as i128, a + b)
    } else {
        let x = a / 0x1_0000_0000;
        let y = b / 0x1_0000_0000;
        scaled_ratio_of(x as i128 - y as i128, x + y)
    }
}

/// Running statistics over a set of trades. Sums saturate at `u128::MAX`.
#[derive(Debug)]
pub struct TradeAggregation {
    pub symbol: Symbol,
    pub count: u64,
    pub buy_count: u64,
    pub sell_count: u64,
    pub total_volume: u128,
    pub buy_volume: u128,
    pub sell_volume: u128,
    pub total_value: u128,
    pub buy_value: u128,
    pub sell_value: u128,
    /// Volume-weighted average price, raw fixed-point.
    pub vwap: u128,
    pub high: Price,
    pub low: Price,
    pub first_price: Price,
    pub last_price: Price,
}

/// `a + b`, saturating at `u128::MAX`.
pub open spec fn sat128(a: u128, b: int) -> u128 {
    capped(a + b, u128::MAX as int) as u128
}

/// `a + 1`, saturating at `u64::MAX`.
pub open spec fn inc64(a: u64) -> u64 {
    capped(a + 1, u64::MAX as int) as u64
}

impl TradeAggregation {
    /// The statistics after one more trade.
    pub open spec fn added(self, t: Trade) -> TradeAggregation {
        let q = t.quantity.0 as int;
        let v = notional(t.price.0, t.quantity.0) as int;
        let buy = t.side == TradeSide::Buy;
        let count = inc64(self.count);
        let total_volume = sat128(self.total_volume, q);
        let total_value = sat128(self.total_value, v);
        TradeAggregation {
            symbol: self.symbol,
            count,
            buy_count: if buy { inc64(self.buy_count) } else { self.buy_count },
            sell_count: if buy { self.sell_count } else { inc64(self.sell_count) },
            total_volume,
            buy_volume: if buy { sat128(self.buy_volume, q) } else { self.buy_volume },
            sell_volume: if buy { self.sell_volume } else { sat128(self.sell_volume, q) },
            total_value,
            buy_value: if buy { sat128(self.buy_value, v) } else { self.buy_value },
            sell_value: if buy { self.sell_value } else { sat128(self.sell_value, v) },
            vwap: if total_volume > 0 { vwap_of(total_value, total_volume) } else { self.vwap },
            high: if count == 1 || t.price.0 > self.high.0 { t.price } else { self.high },
            low: if count == 1 || t.price.0 < self.low.0 { t.price } else { self.low },
            first_price: if count == 1 { t.price } else { self.first_price },
            last_price: t.price,
        }
    }

    pub open spec fn is_empty_for(self, symbol: Symbol) -> bool {
        &&& self.symbol == symbol
        &&& self.count == 0 && self.buy_count == 0 && self.sell_count == 0
        &&& self.total_volume == 0 && self.buy_volume == 0 && self.sell_volume == 0
        &&& self.total_value == 0 && self.buy_value == 0 && self.sell_value == 0
        &&& self.vwap == 0
        &&& self.high.0 == 0 && self.low.0 == 0
        &&& self.first_price.0 == 0 && self.last_price.0 == 0
    }

    pub fn new(symbol: Symbol) -> (r: TradeAggregation)
        ensures
            r.is_empty_for(symbol),
    {
        TradeAggregation {
            symbol,
            count: 0,
            buy_count: 0,
            sell_count: 0,
            total_volume: 0,
            buy_volume: 0,
            sell_volume: 0,
            total_value: 0,
            buy_value: 0,
            sell_value: 0,
            vwap: 0,
            high: Price(0),
            low: Price(0),
            first_price: Price(0),
            last_price: Price(0),
        }
    }

    pub fn add(&mut self, trade: &Trade)
        ensures
            *final(self) == old(self).added(*trade),
    {
        let q = trade.quantity.0 as u128;
        let v = trade.value();
        self.count = self.count.saturating_add(1);
        self.total_volume = self.total_volume.saturating_add(q);
        self.total_value = self.total_value.saturating_add(v);
        match trade.side {
            TradeSide::Buy => {
                self.buy_count = self.buy_count.saturating_add(1);
                self.buy_volume = self.buy_volume.saturating_add(q);
                self.buy_value = self.buy_value.saturating_add(v);
            },
            TradeSide::Sell => {
                self.sell_count = self.sell_count.saturating_add(1);
                self.sell_volume = self.sell_volume.saturating_add(q);
                self.sell_value = self.sell_value.saturating_add(v);
            },
        }
        if self.total_volume > 0 {
            self.vwap = vwap_exec(self.total_value, self.total_volume);
        }
        if self.count == 1 {
            self.high = trade.price;
            self.low = trade.price;
            self.first_price = trade.price;
        } else {
            if trade.price.0 > self.high.0 {
                self.high = trade.price;
            }
            if trade.price.0 < self.low.0 {
                self.low = trade.price;
            }
        }
        self.last_price = trade.price;
    }

    /// Buy volume against sell volume, in `[-1, 1]` in the fixed-point scale.
    pub fn imbalance(&self) -> (r: i128)
        ensures
            r == balance_of(self.buy_volume, self.sell_volume),
    {
        balance_exec(self.buy_volume, self.sell_volume)
    }

    /// `last_price - first_price`.
    pub fn price_change(&self) -> (r: i128)
        ensures
            r == self.last_price.0 - self.first_price.0,
    {
        self.last_price.0 as i128 - self.first_price.0 as i128
    }

    /// Price change as a percentage of the first price, in the fixed-point
    /// scale, rounded toward zero; zero when the first price is zero.
    pub fn price_change_pct(&self) -> (r: i128)
        ensures
            self.first_price.0 == 0 ==> r == 0,
            self.first_price.0 > 0 ==> r == scaled_ratio(
                (self.last_price.0 - self.first_price.0) * 100,
                self.first_price.0 as int,
            ),
    {
        if self.first_price.0 == 0 {
            0
        } else {
            scaled_ratio_of(self.price_change() * 100, self.first_price.0 as u128)
        }
    }
}

/// Trades of one symbol, in arrival order.
#[derive(Debug)]
pub struct TradeBatch {
    pub symbol: Symbol,
    pub trades: Vec<Trade>,
}

/// The statistics of `agg` after adding `s` in order.
pub open spec fn aggregate_seq(agg: TradeAggregation, s: Seq<Trade>) -> TradeAggregation
    decreases s.len(),
{
    if s.len() == 0 {
        agg
    } else {
        aggregate_seq(agg, s.drop_last()).added(s.last())
    }
}

impl TradeBatch {
    pub fn new(symbol: Symbol) -> (r: TradeBatch)
        ensures
            r.symbol == symbol,
            r.trades@.len() == 0,
    {
        TradeBatch { symbol, trades: Vec::new() }
    }

    pub fn with_capacity(symbol: Symbol, capacity: usize) -> (r: TradeBatch)
        ensures
            r.symbol == symbol,
            r.trades@.len() == 0,
    {
        TradeBatch { symbol, trades: Vec::with_capacity(capacity) }
    }

    pub fn push(&mut self, trade: Trade)
        ensures
            final(self).trades@ == old(self).trades@.push(trade),
            final(self).symbol == old(self).symbol,
    {
        self.trades.push(trade);
    }

    pub fn len(&self) -> (r: usize)
        ensures
            r == self.trades@.len(),
    {
        self.trades.len()
    }

    pub fn is_empty(&self) -> (r: bool)
        ensures
            r == (self.trades@.len() == 0),
    {
        self.trades.len() == 0
    }

    /// Statistics over every trade of the batch, in order.
    pub fn aggregate(&self) -> (r: TradeAggregation)
        ensures
            exists|e: TradeAggregation| e.is_empty_for(self.symbol) && r == aggregate_seq(e, self.trades@),
    {
        let mut agg = TradeAggregation::new(self.symbol.clone());
        let ghost start = agg;
        let n = self.trades.len();
        let mut i: usize = 0;
        while i < n
            invariant
                n == self.trades@.len(),
                i <= n,
                start.is_empty_for(self.symbol),
                agg == aggregate_seq(start, self.trades@.subrange(0, i as int)),
            decreases n - i,
        {
            proof {
                assert(self.trades@.subrange(0, i + 1).drop_last() =~= self.trades@.subrange(0, i as int));
            }
            agg.add(&self.trades[i]);
            i = i + 1;
        }
        assert(self.trades@.subrange(0, n as int) =~= self.trades@);
        agg
    }
}

} // verus!
