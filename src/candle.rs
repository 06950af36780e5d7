use vstd::prelude::*;
use crate::types::{capped, notional, notional_of, scaled_ratio, scaled_ratio_of, Price, Quantity, Symbol, BEAR, BULL, FIXED_SCALE};

verus! {

/// A recognised candlestick pattern.
#[derive(Debug, Clone, Copy, PartialEq, Eq, Structural)]
pub enum CandlePattern {
    Doji,
    Hammer,
    InvertedHammer,
    BullishEngulfing,
    BearishEngulfing,
    MorningStar,
    EveningStar,
    ThreeWhiteSoldiers,
    ThreeBlackCrows,
}

impl CandlePattern {
    pub open spec fn name_spec(&self) -> Seq<char> {
        match self {
            CandlePattern::Doji => "Doji"@,
            CandlePattern::Hammer => "Hammer"@,
            CandlePattern::InvertedHammer => "Inverted Hammer"@,
            CandlePattern::BullishEngulfing => "Bullish Engulfing"@,
            CandlePattern::BearishEngulfing => "Bearish Engulfing"@,
            CandlePattern::MorningStar => "Morning Star"@,
            CandlePattern::EveningStar => "Evening Star"@,
            CandlePattern::ThreeWhiteSoldiers => "Three White Soldiers"@,
            CandlePattern::ThreeBlackCrows => "Three Black Crows"@,
        }
    }

    pub fn name(&self) -> (r: &'static str)
        ensures
            r@ == self.name_spec(),
    {
        match self {
            CandlePattern::Doji => "Doji",
            CandlePattern::Hammer => "Hammer",
            CandlePattern::InvertedHammer => "Inverted Hammer",
            CandlePattern::BullishEngulfing => "Bullish Engulfing",
            CandlePattern::BearishEngulfing => "Bearish Engulfing",
            CandlePattern::MorningStar => "Morning Star",
            CandlePattern::EveningStar => "Evening Star",
            CandlePattern::ThreeWhiteSoldiers => "Three White Soldiers",
            CandlePattern::ThreeBlackCrows => "Three Black Crows",
        }
    }

    pub fn is_bullish(&self) -> (r: bool)
        ensures
            r == (*self == CandlePattern::Hammer || *self == CandlePattern::BullishEngulfing
                || *self == CandlePattern::MorningStar || *self
                == CandlePattern::ThreeWhiteSoldiers),
    {
        match self {
            CandlePattern::Hammer
            | CandlePattern::BullishEngulfing
            | CandlePattern::MorningStar
            | CandlePattern::ThreeWhiteSoldiers => true,
            _ => false,
        }
    }

    pub fn is_bearish(&self) -> (r: bool)
        ensures
            r == (*self == CandlePattern::InvertedHammer || *self == CandlePattern::BearishEngulfing
                || *self == CandlePattern::EveningStar || *self == CandlePattern::ThreeBlackCrows),
    {
        match self {
            CandlePattern::InvertedHammer
            | CandlePattern::BearishEngulfing
            | CandlePattern::EveningStar
            | CandlePattern::ThreeBlackCrows => true,
            _ => false,
        }
    }
}

/// Time bucket of a candle.
#[derive(Debug, Clone, Copy, PartialEq, Eq, Hash, Structural)]
pub enum CandleInterval {
    M1,
    M5,
    M15,
    M30,
    H1,
    H4,
    D1,
    W1,
}

impl CandleInterval {
    pub open spec fn secs_spec(&self) -> int {
        match self {
            CandleInterval::M1 => 60,
            CandleInterval::M5 => 300,
            CandleInterval::M15 => 900,
            CandleInterval::M30 => 1800,
            CandleInterval::H1 => 3600,
            CandleInterval::H4 => 14400,
            CandleInterval::D1 => 86400,
            CandleInterval::W1 => 604800,
        }
    }

    pub open spec fn label_spec(&self) -> Seq<char> {
        match self {
            CandleInterval::M1 => "1m"@,
            CandleInterval::M5 => "5m"@,
            CandleInterval::M15 => "15m"@,
            CandleInterval::M30 => "30m"@,
            CandleInterval::H1 => "1H"@,
            CandleInterval::H4 => "4H"@,
            CandleInterval::D1 => "1D"@,
            CandleInterval::W1 => "1W"@,
        }
    }

    /// Length of the bucket in seconds.
    pub fn as_secs(&self) -> (r: i64)
        ensures
            r == self.secs_spec(),
    {
        match self {
            CandleInterval::M1 => 60,
            CandleInterval::M5 => 300,
            CandleInterval::M15 => 900,
            CandleInterval::M30 => 1800,
            CandleInterval::H1 => 3600,
            CandleInterval::H4 => 14400,
            CandleInterval::D1 => 86400,
            CandleInterval::W1 => 604800,
        }
    }

    /// Length of the bucket in milliseconds.
    pub fn as_millis(&self) -> (r: i64)
        ensures
            r == self.secs_spec() * 1000,
    {
        self.as_secs() * 1000
    }

    pub fn label(&self) -> (r: &'static str)
        ensures
            r@ == self.label_spec(),
    {
        match self {
            CandleInterval::M1 => "1m",
            CandleInterval::M5 => "5m",
            CandleInterval::M15 => "15m",
            CandleInterval::M30 => "30m",
            CandleInterval::H1 => "1H",
            CandleInterval::H4 => "4H",
            CandleInterval::D1 => "1D",
            CandleInterval::W1 => "1W",
        }
    }

    /// Every interval, shortest first.
    pub fn all() -> (r: Vec<CandleInterval>)
        ensures
            r@ == seq![
                CandleInterval::M1,
                CandleInterval::M5,
                CandleInterval::M15,
                CandleInterval::M30,
                CandleInterval::H1,
                CandleInterval::H4,
                CandleInterval::D1,
                CandleInterval::W1,
            ],
    {
        let r = vec![
            CandleInterval::M1,
            CandleInterval::M5,
            CandleInterval::M15,
            CandleInterval::M30,
            CandleInterval::H1,
            CandleInterval::H4,
            CandleInterval::D1,
            CandleInterval::W1,
        ];
        assert(r@ =~= seq![
            CandleInterval::M1,
            CandleInterval::M5,
            CandleInterval::M15,
            CandleInterval::M30,
            CandleInterval::H1,
            CandleInterval::H4,
            CandleInterval::D1,
            CandleInterval::W1,
        ]);
        r
    }
}

impl Default for CandleInterval {
    fn default() -> (r: Self)
        ensures
            r == CandleInterval::M1,
    {
        CandleInterval::M1
    }
}

/// One OHLCV bar for a symbol, an interval and an open time.
#[derive(Debug)]
pub struct Candle {
    pub symbol: Symbol,
    pub interval: CandleInterval,
    /// Open time, in milliseconds since the Unix epoch.
    pub timestamp: i64,
    pub open: Price,
    pub high: Price,
    pub low: Price,
    pub close: Price,
    pub volume: Quantity,
    /// Sum of the traded values, in the fixed-point scale.
    pub quote_volume: u128,
    pub trade_count: u32,
    /// A closed candle is history and takes no more trades.
    pub is_closed: bool,
}

impl Clone for Candle {
    fn clone(&self) -> (r: Self)
        ensures
            r == *self,
    {
        Candle {
            symbol: self.symbol.clone(),
            interval: self.interval,
            timestamp: self.timestamp,
            open: self.open,
            high: self.high,
            low: self.low,
            close: self.close,
            volume: self.volume,
            quote_volume: self.quote_volume,
            trade_count: self.trade_count,
            is_closed: self.is_closed,
        }
    }
}

impl Candle {
    /// The bar invariant: `high >= max(open, close) >= min(open, close) >= low`.
    pub open spec fn ohlc_valid(&self) -> bool {
        &&& self.high.0 >= self.open.0
        &&& self.high.0 >= self.close.0
        &&& self.high.0 >= self.low.0
        &&& self.low.0 <= self.open.0
        &&& self.low.0 <= self.close.0
    }

    pub open spec fn range_spec(&self) -> int {
        self.high.0 - self.low.0
    }

    pub open spec fn body_spec(&self) -> int {
        if self.close.0 >= self.open.0 {
            self.close.0 - self.open.0
        } else {
            self.open.0 - self.close.0
        }
    }

    pub open spec fn body_top_spec(&self) -> u64 {
        if self.open.0 >= self.close.0 {
            self.open.0
        } else {
            self.close.0
        }
    }

    pub open spec fn body_bottom_spec(&self) -> u64 {
        if self.open.0 <= self.close.0 {
            self.open.0
        } else {
            self.close.0
        }
    }

    pub open spec fn upper_shadow_spec(&self) -> int {
        self.high.0 - self.body_top_spec()
    }

    pub open spec fn lower_shadow_spec(&self) -> int {
        self.body_bottom_spec() - self.low.0
    }

    /// The candle after one trade of `quantity` at `price`; a closed candle
    /// is history and stays as it is.
    pub open spec fn updated(self, price: u64, quantity: u64) -> Candle {
        if self.is_closed {
            self
        } else {
            Candle {
            high: if price > self.high.0 { Price(price) } else { self.high },
            low: if price < self.low.0 { Price(price) } else { self.low },
            close: Price(price),
            volume: Quantity(capped(self.volume.0 + quantity, u64::MAX as int) as u64),
            quote_volume: capped(self.quote_volume + notional(price, quantity), u128::MAX as int) as u128,
            trade_count: capped(self.trade_count + 1, u32::MAX as int) as u32,
            ..self
            }
        }
    }

    /// A fresh, open candle whose four prices are `open`.
    pub fn new(symbol: Symbol, interval: CandleInterval, timestamp: i64, open: Price) -> (r: Candle)
        ensures
            r.symbol == symbol,
            r.interval == interval,
            r.timestamp == timestamp,
            r.open == open && r.high == open && r.low == open && r.close == open,
            r.volume.0 == 0,
            r.quote_volume == 0,
            r.trade_count == 0,
            !r.is_closed,
            r.ohlc_valid(),
    {
        Candle {
            symbol,
            interval,
            timestamp,
            open,
            high: open,
            low: open,
            close: open,
            volume: Quantity(0),
            quote_volume: 0,
            trade_count: 0,
            is_closed: false,
        }
    }

    /// Takes one trade into an open bar; a closed bar stays as it is. Sums
    /// saturate at their type's maximum.
    pub fn update(&mut self, price: Price, quantity: Quantity)
        ensures
            !old(self).is_closed ==> *final(self) == old(self).updated(price.0, quantity.0),
            old(self).is_closed ==> *final(self) == *old(self),
            old(self).ohlc_valid() ==> final(self).ohlc_valid(),
    {
        if self.is_closed {
            return;
        }
        if price.0 > self.high.0 {
            self.high = price;
        }
        if price.0 < self.low.0 {
            self.low = price;
        }
        self.close = price;
        self.volume = Quantity(self.volume.0.saturating_add(quantity.0));
        self.quote_volume = self.quote_volume.saturating_add(notional_of(price.0, quantity.0));
        self.trade_count = self.trade_count.saturating_add(1);
    }

    pub fn close_candle(&mut self)
        ensures
            *final(self) == (Candle { is_closed: true, ..*old(self) }),
    {
        self.is_closed = true;
    }

    pub fn is_bullish(&self) -> (r: bool)
        ensures
            r == (self.close.0 >= self.open.0),
    {
        self.close.0 >= self.open.0
    }

    pub fn is_bearish(&self) -> (r: bool)
        ensures
            r == (self.close.0 < self.open.0),
    {
        self.close.0 < self.open.0
    }

    /// `|close - open|`.
    pub fn body_size(&self) -> (r: u64)
        ensures
            r == self.body_spec(),
    {
        if self.close.0 >= self.open.0 {
            self.close.0 - self.open.0
        } else {
            self.open.0 - self.close.0
        }
    }

    /// `high - low`.
    pub fn range(&self) -> (r: i128)
        ensures
            r == self.range_spec(),
    {
        self.high.0 as i128 - self.low.0 as i128
    }

    pub fn body_top(&self) -> (r: Price)
        ensures
            r.0 == self.body_top_spec(),
    {
        if self.open.0 >= self.close.0 {
            self.open
        } else {
            self.close
        }
    }

    pub fn body_bottom(&self) -> (r: Price)
        ensures
            r.0 == self.body_bottom_spec(),
    {
        if self.open.0 <= self.close.0 {
            self.open
        } else {
            self.close
        }
    }

    /// `high - max(open, close)`.
    pub fn upper_shadow(&self) -> (r: i128)
        ensures
            r == self.upper_shadow_spec(),
    {
        self.high.0 as i128 - self.body_top().0 as i128
    }

    /// `min(open, close) - low`.
    pub fn lower_shadow(&self) -> (r: i128)
        ensures
            r == self.lower_shadow_spec(),
    {
        self.body_bottom().0 as i128 - self.low.0 as i128
    }

    /// `close - open`.
    pub fn change(&self) -> (r: i128)
        ensures
            r == self.close.0 - self.open.0,
    {
        self.close.0 as i128 - self.open.0 as i128
    }

    /// `(close - open) / open * 100` in the fixed-point scale, rounded toward
    /// zero; zero when `open` is zero.
    pub fn change_percent(&self) -> (r: i128)
        ensures
            self.open.0 == 0 ==> r == 0,
            self.open.0 > 0 ==> r == scaled_ratio((self.close.0 - self.open.0) * 100, self.open.0 as int),
    {
        if self.open.0 == 0 {
            0
        } else {
            scaled_ratio_of(self.change() * 100, self.open.0 as u128)
        }
    }

    pub fn fill_color(&self) -> (r: &'static str)
        ensures
            r == (if self.close.0 >= self.open.0 { BULL } else { BEAR }),
    {
        if self.is_bullish() {
            BULL
        } else {
            BEAR
        }
    }

    pub fn css_class(&self) -> (r: &'static str)
        ensures
            r@ == (if self.close.0 >= self.open.0 {
                "candle-bullish"@
            } else {
                "candle-bearish"@
            }),
    {
        if self.is_bullish() {
            "candle-bullish"
        } else {
            "candle-bearish"
        }
    }

    /// Patterns that `detector` finds in this candle alone.
    pub fn detect_patterns_with<D: CandlePatternDetector>(&self, detector: &D) -> (r: Vec<
        CandlePattern,
    >)
        ensures
            r@ == detector.detect_spec(seq![*self]),
    {
        let one = vec![self.clone()];
        assert(one@ =~= seq![*self]);
        detector.detect(one.as_slice())
    }
}

/// A way of finding patterns in a run of candles, oldest first.
pub trait CandlePatternDetector {
    spec fn detect_spec(&self, candles: Seq<Candle>) -> Seq<CandlePattern>;

    fn detect(&self, candles: &[Candle]) -> (r: Vec<CandlePattern>)
        ensures
            r@ == self.detect_spec(candles@),
    ;
}

/// Single-candle patterns of the last candle.
#[derive(Debug, Clone, Copy)]
pub struct BasicPatternDetector {
    /// Largest body-to-range ratio of a doji, in the fixed-point scale.
    pub doji_threshold: u64,
}

/// The single-candle patterns of `c`, with a doji threshold `t`, in the
/// order doji, hammer, inverted hammer.
pub open spec fn basic_patterns(c: Candle, t: u64) -> Seq<CandlePattern> {
    let body = c.body_spec();
    let doji = if c.range_spec() > 0 && body * FIXED_SCALE < t * c.range_spec() {
        seq![CandlePattern::Doji]
    } else {
        Seq::empty()
    };
    let hammer = if c.lower_shadow_spec() > body * 2 && c.upper_shadow_spec() * 2 < body {
        seq![CandlePattern::Hammer]
    } else {
        Seq::empty()
    };
    let inverted = if c.upper_shadow_spec() > body * 2 && c.lower_shadow_spec() * 2 < body {
        seq![CandlePattern::InvertedHammer]
    } else {
        Seq::empty()
    };
    doji + hammer + inverted
}

impl BasicPatternDetector {
    /// A doji is a body under a tenth of the range.
    pub fn new() -> (r: BasicPatternDetector)
        ensures
            r.doji_threshold == FIXED_SCALE / 10,
    {
        BasicPatternDetector { doji_threshold: FIXED_SCALE / 10 }
    }
}

impl Default for BasicPatternDetector {
    fn default() -> (r: Self)
        ensures
            r.doji_threshold == 0,
    {
        BasicPatternDetector { doji_threshold: 0 }
    }
}

impl CandlePatternDetector for BasicPatternDetector {
    open spec fn detect_spec(&self, candles: Seq<Candle>) -> Seq<CandlePattern> {
        if candles.len() == 0 {
            Seq::empty()
        } else {
            basic_patterns(candles.last(), self.doji_threshold)
        }
    }

    fn detect(&self, candles: &[Candle]) -> (r: Vec<CandlePattern>) {
        let mut patterns: Vec<CandlePattern> = Vec::new();
        let n = candles.len();
        if n == 0 {
            return patterns;
        }
        let c = &candles[n - 1];
        let range = c.range();
        let body = c.body_size();
        let upper = c.upper_shadow();
        let lower = c.lower_shadow();
        let ghost doji: Seq<CandlePattern> = Seq::empty();
        if range > 0 {
            let r = range as u128;
            let t = self.doji_threshold as u128;
            assert(t * r <= 0xffff_ffff_ffff_ffffu128 * 0xffff_ffff_ffff_ffffu128) by (nonlinear_arith)
                requires
                    t <= 0xffff_ffff_ffff_ffffu128,
                    r <= 0xffff_ffff_ffff_ffffu128,
            ;
            if (body as u128) * (FIXED_SCALE as u128) < t * r {
                patterns.push(CandlePattern::Doji);
            }
        }
        let b = body as i128;
        if lower > b * 2 && upper * 2 < b {
            patterns.push(CandlePattern::Hammer);
        }
        if upper > b * 2 && lower * 2 < b {
            patterns.push(CandlePattern::InvertedHammer);
        }
        assert(patterns@ =~= basic_patterns(candles@.last(), self.doji_threshold));
        patterns
    }
}

/// The candle after each `(price, quantity)` trade of `trades`, in order.
pub open spec fn updated_all(c: Candle, trades: Seq<(u64, u64)>) -> Candle
    decreases trades.len(),
{
    if trades.len() == 0 {
        c
    } else {
        updated_all(c, trades.drop_last()).updated(trades.last().0, trades.last().1)
    }
}

/// Any run of trades keeps `high >= open, close, low` and `low <= open, close`.
pub proof fn law_ohlc_kept(c: Candle, trades: Seq<(u64, u64)>)
    requires
        c.ohlc_valid(),
    ensures
        updated_all(c, trades).ohlc_valid(),
    decreases trades.len(),
{
    if trades.len() > 0 {
        law_ohlc_kept(c, trades.drop_last());
    }
}

/// Smallest low over `s`; `u64::MAX` for no candle.
pub open spec fn min_low(s: Seq<Candle>) -> u64
    decreases s.len(),
{
    if s.len() == 0 {
        u64::MAX
    } else {
        let m = min_low(s.drop_last());
        if s.last().low.0 < m { s.last().low.0 } else { m }
    }
}

/// Largest high over `s`; zero for no candle.
pub open spec fn max_high(s: Seq<Candle>) -> u64
    decreases s.len(),
{
    if s.len() == 0 {
        0
    } else {
        let m = max_high(s.drop_last());
        if s.last().high.0 > m { s.last().high.0 } else { m }
    }
}

/// Smallest volume over `s`; `u64::MAX` for no candle.
pub open spec fn min_volume(s: Seq<Candle>) -> u64
    decreases s.len(),
{
    if s.len() == 0 {
        u64::MAX
    } else {
        let m = min_volume(s.drop_last());
        if s.last().volume.0 < m { s.last().volume.0 } else { m }
    }
}

/// Largest volume over `s`; zero for no candle.
pub open spec fn max_volume(s: Seq<Candle>) -> u64
    decreases s.len(),
{
    if s.len() == 0 {
        0
    } else {
        let m = max_volume(s.drop_last());
        if s.last().volume.0 > m { s.last().volume.0 } else { m }
    }
}

/// The candles of one symbol and interval, oldest first.
#[derive(Debug)]
pub struct CandleHistory {
    pub symbol: Symbol,
    pub interval: CandleInterval,
    pub candles: Vec<Candle>,
}

impl CandleHistory {
    pub fn new(symbol: Symbol, interval: CandleInterval) -> (r: CandleHistory)
        ensures
            r.symbol == symbol,
            r.interval == interval,
            r.candles@.len() == 0,
    {
        CandleHistory { symbol, interval, candles: Vec::new() }
    }

    pub fn with_capacity(symbol: Symbol, interval: CandleInterval, capacity: usize) -> (r:
        CandleHistory)
        ensures
            r.symbol == symbol,
            r.interval == interval,
            r.candles@.len() == 0,
    {
        CandleHistory { symbol, interval, candles: Vec::with_capacity(capacity) }
    }

    pub fn push(&mut self, candle: Candle)
        ensures
            final(self).candles@ == old(self).candles@.push(candle),
            final(self).symbol == old(self).symbol,
            final(self).interval == old(self).interval,
    {
        self.candles.push(candle);
    }

    pub fn len(&self) -> (r: usize)
        ensures
            r == self.candles@.len(),
    {
        self.candles.len()
    }

    pub fn is_empty(&self) -> (r: bool)
        ensures
            r == (self.candles@.len() == 0),
    {
        self.candles.len() == 0
    }

    /// The most recent candle.
    pub fn latest(&self) -> (r: Option<&Candle>)
        ensures
            self.candles@.len() == 0 ==> r.is_none(),
            self.candles@.len() > 0 ==> r == Some(&self.candles@.last()),
    {
        let n = self.candles.len();
        if n == 0 {
            None
        } else {
            Some(&self.candles[n - 1])
        }
    }

    /// The most recent `n` candles, or all when there are fewer.
    pub fn tail(&self, n: usize) -> (r: &[Candle])
        ensures
            r@ == self.candles@.subrange(
                if n >= self.candles@.len() { 0 } else { self.candles@.len() - n },
                self.candles@.len() as int,
            ),
    {
        let len = self.candles.len();
        let start = len.saturating_sub(n);
        vstd::slice::slice_subrange(self.candles.as_slice(), start, len)
    }

    /// Lowest low and highest high over all candles.
    pub fn price_range(&self) -> (r: Option<(Price, Price)>)
        ensures
            self.candles@.len() == 0 ==> r.is_none(),
            self.candles@.len() > 0 ==> r == Some(
                (Price(min_low(self.candles@)), Price(max_high(self.candles@))),
            ),
    {
        let n = self.candles.len();
        if n == 0 {
            return None;
        }
        let mut lo: u64 = u64::MAX;
        let mut hi: u64 = 0;
        let mut i: usize = 0;
        while i < n
            invariant
                n == self.candles@.len(),
                i <= n,
                lo == min_low(self.candles@.subrange(0, i as int)),
                hi == max_high(self.candles@.subrange(0, i as int)),
            decreases n - i,
        {
            let c = &self.candles[i];
            proof {
                assert(self.candles@.subrange(0, i + 1).drop_last() =~= self.candles@.subrange(
                    0,
                    i as int,
                ));
            }
            if c.low.0 < lo {
                lo = c.low.0;
            }
            if c.high.0 > hi {
                hi = c.high.0;
            }
            i = i + 1;
        }
        assert(self.candles@.subrange(0, n as int) =~= self.candles@);
        Some((Price(lo), Price(hi)))
    }

    /// Smallest and largest volume over all candles.
    pub fn volume_range(&self) -> (r: Option<(Quantity, Quantity)>)
        ensures
            self.candles@.len() == 0 ==> r.is_none(),
            self.candles@.len() > 0 ==> r == Some(
                (Quantity(min_volume(self.candles@)), Quantity(max_volume(self.candles@))),
            ),
    {
        let n = self.candles.len();
        if n == 0 {
            return None;
        }
        let mut lo: u64 = u64::MAX;
        let mut hi: u64 = 0;
        let mut i: usize = 0;
        while i < n
            invariant
                n == self.candles@.len(),
                i <= n,
                lo == min_volume(self.candles@.subrange(0, i as int)),
                hi == max_volume(self.candles@.subrange(0, i as int)),
            decreases n - i,
        {
            let c = &self.candles[i];
            proof {
                assert(self.candles@.subrange(0, i + 1).drop_last() =~= self.candles@.subrange(
                    0,
                    i as int,
                ));
            }
            if c.volume.0 < lo {
                lo = c.volume.0;
            }
            if c.volume.0 > hi {
                hi = c.volume.0;
            }
            i = i + 1;
        }
        assert(self.candles@.subrange(0, n as int) =~= self.candles@);
        Some((Quantity(lo), Quantity(hi)))
    }

    /// Open times of the first and the last candle.
    pub fn time_range(&self) -> (r: Option<(i64, i64)>)
        ensures
            self.candles@.len() == 0 ==> r.is_none(),
            self.candles@.len() > 0 ==> r == Some(
                (self.candles@[0].timestamp, self.candles@.last().timestamp),
            ),
    {
        let n = self.candles.len();
        if n == 0 {
            None
        } else {
            Some((self.candles[0].timestamp, self.candles[n - 1].timestamp))
        }
    }

    /// Patterns that `detector` finds over the whole history.
    pub fn detect_patterns_with<D: CandlePatternDetector>(&self, detector: &D) -> (r: Vec<
        CandlePattern,
    >)
        ensures
            r@ == detector.detect_spec(self.candles@),
    {
        detector.detect(self.candles.as_slice())
    }
}

} // verus!
