use vstd::prelude::*;
use crate::outside::now_millis;
use crate::trade::{vwap_of, vwap_exec};
use crate::text::{fixed_text, push_fixed};
use crate::types::{capped, notional, notional_of, scaled_ratio, scaled_ratio_of, Price, Quantity, Symbol, BEAR, BULL, FIXED_SCALE};

verus! {

/// Rolling 24-hour summary of one symbol.
#[derive(Debug)]
pub struct Ticker {
    pub symbol: Symbol,
    pub last_price: Price,
    pub bid_price: Price,
    pub bid_qty: Quantity,
    pub ask_price: Price,
    pub ask_qty: Quantity,
    pub high_24h: Price,
    pub low_24h: Price,
    pub volume_24h: Quantity,
    /// Traded value over the window, in the fixed-point scale.
    pub quote_volume_24h: u128,
    /// `last_price - open_24h`, raw fixed-point.
    pub change_24h: i128,
    /// Change as a percentage of the open, in the fixed-point scale.
    pub change_percent_24h: i128,
    pub open_24h: Price,
    pub trade_count_24h: u64,
    /// Milliseconds since the Unix epoch.
    pub timestamp: i64,
}

/// `price * num / den`, rounded down and capped at `u64::MAX`.
pub open spec fn scaled_price(price: u64, num: int, den: int) -> u64 {
    capped(price * num / den, u64::MAX as int) as u64
}

fn scale_price(price: u64, num: u64, den: u64) -> (r: u64)
    requires
        den > 0,
        num <= 1_000_000,
    ensures
        r == scaled_price(price, num as int, den as int),
{
    let a = price as u128;
    let b = num as u128;
    assert(a * b <= 0xffff_ffff_ffff_ffffu128 * 1_000_000u128) by (nonlinear_arith)
        requires
            a <= 0xffff_ffff_ffff_ffffu128,
            b <= 1_000_000u128,
    ;
    let p = a * b;
    let q = p / den as u128;
    if q > u64::MAX as u128 {
        u64::MAX
    } else {
        q as u64
    }
}

impl Ticker {
    /// A ticker seeded around `price`: bid and ask one basis point off, high
    /// and low five percent off, a volume of one thousand units.
    pub fn new(symbol: Symbol, price: Price) -> (r: Ticker)
        ensures
            r.symbol == symbol,
            r.last_price == price,
            r.open_24h == price,
            r.bid_price.0 == scaled_price(price.0, 9999, 10000),
            r.ask_price.0 == scaled_price(price.0, 10001, 10000),
            r.high_24h.0 == scaled_price(price.0, 105, 100),
            r.low_24h.0 == scaled_price(price.0, 95, 100),
            r.bid_qty.0 == FIXED_SCALE && r.ask_qty.0 == FIXED_SCALE,
            r.volume_24h.0 == 1000 * FIXED_SCALE,
            r.quote_volume_24h == notional(price.0, (1000 * FIXED_SCALE) as u64),
            r.change_24h == 0 && r.change_percent_24h == 0,
            r.trade_count_24h == 0,
    {
        let ts = now_millis();
        Ticker {
            symbol,
            last_price: price,
            bid_price: Price(scale_price(price.0, 9999, 10000)),
            bid_qty: Quantity(FIXED_SCALE),
            ask_price: Price(scale_price(price.0, 10001, 10000)),
            ask_qty: Quantity(FIXED_SCALE),
            high_24h: Price(scale_price(price.0, 105, 100)),
            low_24h: Price(scale_price(price.0, 95, 100)),
            volume_24h: Quantity(1000 * FIXED_SCALE),
            quote_volume_24h: notional_of(price.0, 1000 * FIXED_SCALE),
            change_24h: 0,
            change_percent_24h: 0,
            open_24h: price,
            trade_count_24h: 0,
            timestamp: ts,
        }
    }

    /// `ask - bid`.
    pub fn spread(&self) -> (r: i128)
        ensures
            r == self.ask_price.0 - self.bid_price.0,
    {
        self.ask_price.0 as i128 - self.bid_price.0 as i128
    }

    /// Spread as a percentage of the mid price, in the fixed-point scale,
    /// rounded toward zero; zero when bid and ask are both zero.
    pub fn spread_percent(&self) -> (r: i128)
        ensures
            self.bid_price.0 + self.ask_price.0 == 0 ==> r == 0,
            self.bid_price.0 + self.ask_price.0 > 0 ==> r == scaled_ratio(
                (self.ask_price.0 - self.bid_price.0) * 200,
                self.bid_price.0 + self.ask_price.0,
            ),
    {
        let total = self.bid_price.0 as u128 + self.ask_price.0 as u128;
        if total == 0 {
            0
        } else {
            scaled_ratio_of(self.spread() * 200, total)
        }
    }

    /// Mean of bid and ask, rounded down.
    pub fn mid_price(&self) -> (r: Price)
        ensures
            r.0 == (self.bid_price.0 + self.ask_price.0) / 2,
    {
        let s = self.bid_price.0 as u128 + self.ask_price.0 as u128;
        Price((s / 2) as u64)
    }

    pub fn is_up(&self) -> (r: bool)
        ensures
            r == (self.change_24h >= 0),
    {
        self.change_24h >= 0
    }

    pub fn is_down(&self) -> (r: bool)
        ensures
            r == (self.change_24h < 0),
    {
        self.change_24h < 0
    }

    pub fn color(&self) -> (r: &'static str)
        ensures
            r == (if self.change_24h >= 0 { BULL } else { BEAR }),
    {
        if self.is_up() {
            BULL
        } else {
            BEAR
        }
    }

    pub fn css_class(&self) -> (r: &'static str)
        ensures
            r@ == (if self.change_24h >= 0 { "ticker-up"@ } else { "ticker-down"@ }),
    {
        if self.is_up() {
            "ticker-up"
        } else {
            "ticker-down"
        }
    }

    pub fn arrow(&self) -> (r: &'static str)
        ensures
            r@ == (if self.change_24h >= 0 { "\u{25B2}"@ } else { "\u{25BC}"@ }),
    {
        if self.is_up() {
            "\u{25B2}"
        } else {
            "\u{25BC}"
        }
    }

    /// Where the last price sits between the 24-hour low and high, in the
    /// fixed-point scale, rounded toward zero; one half when they are equal.
    pub fn range_position(&self) -> (r: i128)
        ensures
            self.high_24h.0 == self.low_24h.0 ==> r == FIXED_SCALE / 2,
            self.high_24h.0 > self.low_24h.0 ==> r == scaled_ratio(
                self.last_price.0 - self.low_24h.0,
                self.high_24h.0 - self.low_24h.0,
            ),
            self.high_24h.0 < self.low_24h.0 ==> r == scaled_ratio(
                self.low_24h.0 - self.last_price.0,
                self.low_24h.0 - self.high_24h.0,
            ),
    {
        let hi = self.high_24h.0;
        let lo = self.low_24h.0;
        let last = self.last_price.0 as i128;
        if hi == lo {
            (FIXED_SCALE / 2) as i128
        } else if hi > lo {
            scaled_ratio_of(last - lo as i128, (hi - lo) as u128)
        } else {
            scaled_ratio_of(lo as i128 - last, (lo - hi) as u128)
        }
    }

    /// Quote volume over volume; the last price when there is no volume.
    pub fn vwap_24h(&self) -> (r: u128)
        ensures
            self.volume_24h.0 == 0 ==> r == self.last_price.0,
            self.volume_24h.0 > 0 ==> r == vwap_of(self.quote_volume_24h, self.volume_24h.0 as u128),
    {
        if self.volume_24h.0 == 0 {
            self.last_price.0 as u128
        } else {
            vwap_exec(self.quote_volume_24h, self.volume_24h.0 as u128)
        }
    }

    /// The ticker after one trade, but for its timestamp.
    pub open spec fn traded(self, price: u64, quantity: u64) -> Ticker {
        let change = price - self.open_24h.0;
        Ticker {
            last_price: Price(price),
            volume_24h: Quantity(capped(self.volume_24h.0 + quantity, u64::MAX as int) as u64),
            quote_volume_24h: capped(self.quote_volume_24h + notional(price, quantity), u128::MAX as int) as u128,
            trade_count_24h: capped(self.trade_count_24h + 1, u64::MAX as int) as u64,
            high_24h: if price > self.high_24h.0 { Price(price) } else { self.high_24h },
            low_24h: if price < self.low_24h.0 { Price(price) } else { self.low_24h },
            change_24h: change as i128,
            change_percent_24h: if self.open_24h.0 > 0 {
                scaled_ratio(change * 100, self.open_24h.0 as int) as i128
            } else {
                self.change_percent_24h
            },
            ..self
        }
    }

    /// Takes one trade into the summary and stamps it with the current time.
    pub fn update_from_trade(&mut self, price: Price, quantity: Quantity)
        ensures
            *final(self) == (Ticker { timestamp: final(self).timestamp, ..old(self).traded(price.0, quantity.0) }),
    {
        self.last_price = price;
        self.volume_24h = Quantity(self.volume_24h.0.saturating_add(quantity.0));
        self.quote_volume_24h = self.quote_volume_24h.saturating_add(notional_of(price.0, quantity.0));
        self.trade_count_24h = self.trade_count_24h.saturating_add(1);
        if price.0 > self.high_24h.0 {
            self.high_24h = price;
        }
        if price.0 < self.low_24h.0 {
            self.low_24h = price;
        }
        self.change_24h = price.0 as i128 - self.open_24h.0 as i128;
        if self.open_24h.0 > 0 {
            self.change_percent_24h = scaled_ratio_of(self.change_24h * 100, self.open_24h.0 as u128);
        }
        self.timestamp = now_millis();
    }
}

/// A signed fixed-point amount with two decimals and an explicit `+` when
/// not negative.
pub open spec fn change_text(v: int) -> Seq<char> {
    if v >= 0 {
        seq!['+'] + fixed_text(v as nat, 2)
    } else {
        seq!['-'] + fixed_text((-v) as nat, 2)
    }
}

fn push_change(out: &mut String, v: i128)
    ensures
        final(out)@ == old(out)@ + change_text(v as int),
{
    proof {
        reveal_strlit("+");
        reveal_strlit("-");
    }
    if v >= 0 {
        out.append("+");
        push_fixed(out, v as u128, 2);
    } else {
        out.append("-");
        let m: u128 = ((-(v + 1)) as u128) + 1;
        push_fixed(out, m, 2);
    }
    assert(final(out)@ =~= old(out)@ + change_text(v as int));
}

impl Ticker {
    /// The 24-hour change with sign and two decimals.
    pub fn change_str(&self) -> (r: String)
        ensures
            r@ == change_text(self.change_24h as int),
    {
        let mut out = String::new();
        push_change(&mut out, self.change_24h);
        assert(out@ =~= change_text(self.change_24h as int));
        out
    }

    /// The 24-hour change in percent with sign, two decimals and `%`.
    pub fn change_percent_str(&self) -> (r: String)
        ensures
            r@ == change_text(self.change_percent_24h as int) + seq!['%'],
    {
        let mut out = String::new();
        push_change(&mut out, self.change_percent_24h);
        out.append("%");
        proof {
            reveal_strlit("%");
        }
        assert(out@ =~= change_text(self.change_percent_24h as int) + seq!['%']);
        out
    }
}

/// Last price and change of a symbol.
#[derive(Debug)]
pub struct MiniTicker {
    pub symbol: Symbol,
    pub last_price: Price,
    /// Change in percent, in the fixed-point scale.
    pub change_percent_24h: i128,
}

impl MiniTicker {
    /// The summary of `t`.
    pub fn from_ticker(t: &Ticker) -> (r: MiniTicker)
        ensures
            r == (MiniTicker { symbol: t.symbol, last_price: t.last_price, change_percent_24h: t.change_percent_24h }),
    {
        MiniTicker { symbol: t.symbol.clone(), last_price: t.last_price, change_percent_24h: t.change_percent_24h }
    }

    pub fn is_up(&self) -> (r: bool)
        ensures
            r == (self.change_percent_24h >= 0),
    {
        self.change_percent_24h >= 0
    }

    pub fn color(&self) -> (r: &'static str)
        ensures
            r == (if self.change_percent_24h >= 0 { BULL } else { BEAR }),
    {
        if self.is_up() {
            BULL
        } else {
            BEAR
        }
    }
}

/// The numbers of a ticker, without its symbol and book.
#[derive(Debug, Clone, Copy, PartialEq, Eq, Structural)]
pub struct TickerStats {
    pub last_price: Price,
    pub change_24h: i128,
    pub change_percent_24h: i128,
    pub high_24h: Price,
    pub low_24h: Price,
    pub volume_24h: Quantity,
    pub quote_volume_24h: u128,
}

impl TickerStats {
    pub fn from_ticker(t: &Ticker) -> (r: TickerStats)
        ensures
            r == (TickerStats {
                last_price: t.last_price,
                change_24h: t.change_24h,
                change_percent_24h: t.change_percent_24h,
                high_24h: t.high_24h,
                low_24h: t.low_24h,
                volume_24h: t.volume_24h,
                quote_volume_24h: t.quote_volume_24h,
            }),
    {
        TickerStats {
            last_price: t.last_price,
            change_24h: t.change_24h,
            change_percent_24h: t.change_percent_24h,
            high_24h: t.high_24h,
            low_24h: t.low_24h,
            volume_24h: t.volume_24h,
            quote_volume_24h: t.quote_volume_24h,
        }
    }
}

} // verus!
