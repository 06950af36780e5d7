use vstd::prelude::*;
use crate::outside::now_millis;
use crate::types::{capped, notional, notional_of, scaled_ratio, scaled_ratio_away, scaled_ratio_away_of, scaled_ratio_of, Price, Quantity, Symbol, BEAR, BULL, FIXED_SCALE};

verus! {

/// Most levels that one side of an order book may hold.
pub const MAX_BOOK_LEVELS: usize = 1_048_576;

/// Side of an order book.
#[derive(Debug, Clone, Copy, PartialEq, Eq, Structural)]
pub enum OrderSide {
    Bid,
    Ask,
}

impl OrderSide {
    pub fn color(&self) -> (r: &'static str)
        ensures
            r == (if *self == OrderSide::Bid { BULL } else { BEAR }),
    {
        match self {
            OrderSide::Bid => BULL,
            OrderSide::Ask => BEAR,
        }
    }

    pub fn label(&self) -> (r: &'static str)
        ensures
            r@ == (if *self == OrderSide::Bid { "BID"@ } else { "ASK"@ }),
    {
        match self {
            OrderSide::Bid => "BID",
            OrderSide::Ask => "ASK",
        }
    }

    pub fn css_class(&self) -> (r: &'static str)
        ensures
            r@ == (if *self == OrderSide::Bid { "order-bid"@ } else { "order-ask"@ }),
    {
        match self {
            OrderSide::Bid => "order-bid",
            OrderSide::Ask => "order-ask",
        }
    }
}

/// One price level: a price and the quantity resting there.
#[derive(Debug, Clone, Copy, PartialEq, Eq, Structural)]
pub struct OrderBookLevel {
    pub price: Price,
    pub quantity: Quantity,
    pub order_count: u32,
}

impl OrderBookLevel {
    pub fn new(price: Price, quantity: Quantity, order_count: u32) -> (r: OrderBookLevel)
        ensures
            r == (OrderBookLevel { price, quantity, order_count }),
    {
        OrderBookLevel { price, quantity, order_count }
    }

    /// `price * quantity` in the fixed-point scale.
    pub fn value(&self) -> (r: u128)
        ensures
            r == notional(self.price.0, self.quantity.0),
    {
        notional_of(self.price.0, self.quantity.0)
    }

    /// This level's quantity as a percentage of `max_qty`, at most 100, in
    /// the fixed-point scale; zero when `max_qty` is zero.
    pub fn quantity_percent(&self, max_qty: Quantity) -> (r: i128)
        ensures
            max_qty.0 == 0 ==> r == 0,
            max_qty.0 > 0 ==> r == (if scaled_ratio(self.quantity.0 * 100, max_qty.0 as int) > 100
                * FIXED_SCALE {
                100 * FIXED_SCALE
            } else {
                scaled_ratio(self.quantity.0 * 100, max_qty.0 as int)
            }),
    {
        if max_qty.0 == 0 {
            0
        } else {
            let p = scaled_ratio_of(self.quantity.0 as i128 * 100, max_qty.0 as u128);
            if p > 100 * (FIXED_SCALE as i128) {
                100 * (FIXED_SCALE as i128)
            } else {
                p
            }
        }
    }
}

/// Sum of the quantities of `s`.
pub open spec fn sum_qty(s: Seq<OrderBookLevel>) -> nat
    decreases s.len(),
{
    if s.len() == 0 {
        0
    } else {
        sum_qty(s.drop_last()) + s.last().quantity.0 as nat
    }
}

/// Sum of the traded values of `s`.
pub open spec fn sum_value(s: Seq<OrderBookLevel>) -> nat
    decreases s.len(),
{
    if s.len() == 0 {
        0
    } else {
        sum_value(s.drop_last()) + notional(s.last().price.0, s.last().quantity.0)
    }
}

/// Largest quantity of `s`; zero for no level.
pub open spec fn max_qty(s: Seq<OrderBookLevel>) -> u64
    decreases s.len(),
{
    if s.len() == 0 {
        0
    } else {
        let m = max_qty(s.drop_last());
        if s.last().quantity.0 > m { s.last().quantity.0 } else { m }
    }
}

pub proof fn lemma_sum_qty_bound(s: Seq<OrderBookLevel>)
    ensures
        sum_qty(s) <= s.len() * 0xffff_ffff_ffff_ffff,
    decreases s.len(),
{
    if s.len() > 0 {
        lemma_sum_qty_bound(s.drop_last());
    }
}

pub proof fn lemma_sum_value_bound(s: Seq<OrderBookLevel>)
    ensures
        sum_value(s) <= s.len() * 0x40_0000_0000_0000_0000_0000_0000,
    decreases s.len(),
{
    if s.len() > 0 {
        lemma_sum_value_bound(s.drop_last());
        let p = s.last().price.0 as nat;
        let q = s.last().quantity.0 as nat;
        assert(p * q <= 0xffff_ffff_ffff_ffff * 0xffff_ffff_ffff_ffff) by (nonlinear_arith)
            requires
                p <= 0xffff_ffff_ffff_ffff,
                q <= 0xffff_ffff_ffff_ffff,
        ;
        let x = p * q;
        assert(x / 100_000_000 <= 0x40_0000_0000_0000_0000_0000_0000) by (nonlinear_arith)
            requires
                x <= 0xffff_ffff_ffff_ffff * 0xffff_ffff_ffff_ffff,
        ;
    }
}

/// Every prefix sum of quantities is at most the whole sum.
pub proof fn lemma_sum_qty_prefix(s: Seq<OrderBookLevel>, i: int, j: int)
    requires
        0 <= i <= j <= s.len(),
    ensures
        sum_qty(s.subrange(0, i)) <= sum_qty(s.subrange(0, j)),
    decreases j - i,
{
    if i < j {
        lemma_sum_qty_prefix(s, i, j - 1);
        assert(s.subrange(0, j).drop_last() =~= s.subrange(0, j - 1));
    }
}

/// Sum of the quantities of `levels`; it always fits in `u128`.
fn total_qty(levels: &Vec<OrderBookLevel>) -> (r: u128)
    ensures
        r == sum_qty(levels@),
{
    let n = levels.len();
    let mut t: u128 = 0;
    let mut i: usize = 0;
    while i < n
        invariant
            n == levels@.len(),
            i <= n,
            t == sum_qty(levels@.subrange(0, i as int)),
        decreases n - i,
    {
        proof {
            assert(levels@.subrange(0, i + 1).drop_last() =~= levels@.subrange(0, i as int));
            lemma_sum_qty_bound(levels@.subrange(0, i as int));
            assert(i * 0xffff_ffff_ffff_ffff + 0xffff_ffff_ffff_ffff <= 0xffff_ffff_ffff_ffff
                * 0xffff_ffff_ffff_ffff + 0xffff_ffff_ffff_ffff) by (nonlinear_arith)
                requires
                    i < 0xffff_ffff_ffff_ffff,
            ;
        }
        t = t + levels[i].quantity.0 as u128;
        i = i + 1;
    }
    assert(levels@.subrange(0, n as int) =~= levels@);
    t
}

/// Sum of the values of `levels`, which hold at most `MAX_BOOK_LEVELS`.
fn total_value(levels: &Vec<OrderBookLevel>) -> (r: u128)
    requires
        levels@.len() <= MAX_BOOK_LEVELS,
    ensures
        r == sum_value(levels@),
{
    let n = levels.len();
    let mut t: u128 = 0;
    let mut i: usize = 0;
    while i < n
        invariant
            n == levels@.len(),
            n <= MAX_BOOK_LEVELS,
            i <= n,
            t == sum_value(levels@.subrange(0, i as int)),
        decreases n - i,
    {
        proof {
            assert(levels@.subrange(0, i + 1).drop_last() =~= levels@.subrange(0, i as int));
            lemma_sum_value_bound(levels@.subrange(0, i + 1));
            let k = (i + 1) as int;
            assert(k * 0x40_0000_0000_0000_0000_0000_0000 <= 0x10_0000 * 0x40_0000_0000_0000_0000_0000_0000) by (nonlinear_arith)
                requires
                    k <= 0x10_0000,
            ;
        }
        t = t + levels[i].value();
        i = i + 1;
    }
    assert(levels@.subrange(0, n as int) =~= levels@);
    t
}

/// Bids, best (highest) first, and asks, best (lowest) first.
#[derive(Debug)]
pub struct OrderBookSnapshot {
    pub symbol: Symbol,
    pub bids: Vec<OrderBookLevel>,
    pub asks: Vec<OrderBookLevel>,
    /// Milliseconds since the Unix epoch.
    pub timestamp: i64,
    pub sequence: u64,
}

impl OrderBookSnapshot {
    /// Neither side holds more than `MAX_BOOK_LEVELS` levels.
    pub open spec fn within_limits_spec(&self) -> bool {
        self.bids@.len() <= MAX_BOOK_LEVELS && self.asks@.len() <= MAX_BOOK_LEVELS
    }

    /// An empty book stamped with the current time.
    pub fn new(symbol: Symbol) -> (r: OrderBookSnapshot)
        ensures
            r.symbol == symbol,
            r.bids@.len() == 0,
            r.asks@.len() == 0,
            r.sequence == 0,
    {
        OrderBookSnapshot {
            symbol,
            bids: Vec::new(),
            asks: Vec::new(),
            timestamp: now_millis(),
            sequence: 0,
        }
    }

    pub fn within_limits(&self) -> (r: bool)
        ensures
            r == self.within_limits_spec(),
    {
        self.bids.len() <= MAX_BOOK_LEVELS && self.asks.len() <= MAX_BOOK_LEVELS
    }

    pub fn best_bid(&self) -> (r: Option<&OrderBookLevel>)
        ensures
            r == (if self.bids@.len() > 0 { Some(&self.bids@[0]) } else { None }),
    {
        if self.bids.len() > 0 {
            Some(&self.bids[0])
        } else {
            None
        }
    }

    pub fn best_ask(&self) -> (r: Option<&OrderBookLevel>)
        ensures
            r == (if self.asks@.len() > 0 { Some(&self.asks@[0]) } else { None }),
    {
        if self.asks.len() > 0 {
            Some(&self.asks[0])
        } else {
            None
        }
    }

    /// Best ask minus best bid, when both sides are non-empty.
    pub fn spread(&self) -> (r: Option<i128>)
        ensures
            r == (if self.bids@.len() > 0 && self.asks@.len() > 0 {
                Some((self.asks@[0].price.0 - self.bids@[0].price.0) as i128)
            } else {
                None::<i128>
            }),
    {
        if self.bids.len() > 0 && self.asks.len() > 0 {
            Some(self.asks[0].price.0 as i128 - self.bids[0].price.0 as i128)
        } else {
            None
        }
    }

    /// Spread as a percentage of the mid price, in the fixed-point scale,
    /// rounded toward zero; none when a side is empty or the mid price is zero.
    pub fn spread_percent(&self) -> (r: Option<i128>)
        ensures
            r == (if self.bids@.len() > 0 && self.asks@.len() > 0 && self.bids@[0].price.0
                + self.asks@[0].price.0 > 0 {
                Some(
                    scaled_ratio(
                        (self.asks@[0].price.0 - self.bids@[0].price.0) * 200,
                        self.bids@[0].price.0 + self.asks@[0].price.0,
                    ) as i128,
                )
            } else {
                None::<i128>
            }),
    {
        if self.bids.len() > 0 && self.asks.len() > 0 {
            let b = self.bids[0].price.0;
            let a = self.asks[0].price.0;
            let total = b as u128 + a as u128;
            if total == 0 {
                None
            } else {
                Some(scaled_ratio_of((a as i128 - b as i128) * 200, total))
            }
        } else {
            None
        }
    }

    /// Mean of the best bid and the best ask, rounded down.
    pub fn mid_price(&self) -> (r: Option<Price>)
        ensures
            r == (if self.bids@.len() > 0 && self.asks@.len() > 0 {
                Some(Price(((self.bids@[0].price.0 + self.asks@[0].price.0) / 2) as u64))
            } else {
                None::<Price>
            }),
    {
        if self.bids.len() > 0 && self.asks.len() > 0 {
            let s = self.bids[0].price.0 as u128 + self.asks[0].price.0 as u128;
            Some(Price((s / 2) as u64))
        } else {
            None
        }
    }

    pub fn total_bid_depth(&self) -> (r: u128)
        ensures
            r == sum_qty(self.bids@),
    {
        total_qty(&self.bids)
    }

    pub fn total_ask_depth(&self) -> (r: u128)
        ensures
            r == sum_qty(self.asks@),
    {
        total_qty(&self.asks)
    }

    pub fn total_bid_value(&self) -> (r: u128)
        requires
            self.within_limits_spec(),
        ensures
            r == sum_value(self.bids@),
    {
        total_value(&self.bids)
    }

    pub fn total_ask_value(&self) -> (r: u128)
        requires
            self.within_limits_spec(),
        ensures
            r == sum_value(self.asks@),
    {
        total_value(&self.asks)
    }

    pub open spec fn imbalance_spec(&self) -> int {
        let total = sum_qty(self.bids@) + sum_qty(self.asks@);
        if total == 0 {
            0
        } else {
            scaled_ratio_away(sum_qty(self.bids@) as int - sum_qty(self.asks@) as int, total as int)
        }
    }

    /// `(bid depth - ask depth) / (bid depth + ask depth)` in the fixed-point
    /// scale, rounded away from zero so that its sign is the sign of the
    /// difference; zero for an empty book.
    pub fn imbalance(&self) -> (r: i128)
        requires
            self.within_limits_spec(),
        ensures
            r == self.imbalance_spec(),
            r > 0 <==> sum_qty(self.bids@) > sum_qty(self.asks@),
            r < 0 <==> sum_qty(self.bids@) < sum_qty(self.asks@),
            -(FIXED_SCALE as int) <= r <= FIXED_SCALE,
    {
        let b = self.total_bid_depth();
        let a = self.total_ask_depth();
        proof {
            lemma_sum_qty_bound(self.bids@);
            lemma_sum_qty_bound(self.asks@);
            assert(self.bids@.len() * 0xffff_ffff_ffff_ffff <= 0x10_0000 * 0xffff_ffff_ffff_ffff) by (nonlinear_arith)
                requires
                    self.bids@.len() <= 0x10_0000,
            ;
            assert(self.asks@.len() * 0xffff_ffff_ffff_ffff <= 0x10_0000 * 0xffff_ffff_ffff_ffff) by (nonlinear_arith)
                requires
                    self.asks@.len() <= 0x10_0000,
            ;
        }
        let total = b + a;
        if total == 0 {
            return 0;
        }
        let r = scaled_ratio_away_of(b as i128 - a as i128, total);
        proof {
            let n = b - a;
            let d = total as int;
            if n >= 0 {
                assert((n * FIXED_SCALE + d - 1) / d <= FIXED_SCALE) by (nonlinear_arith)
                    requires
                        0 <= n <= d,
                        d > 0,
                        FIXED_SCALE > 0,
                ;
            } else {
                assert(((-n) * FIXED_SCALE + d - 1) / d <= FIXED_SCALE) by (nonlinear_arith)
                    requires
                        0 <= -n <= d,
                        d > 0,
                        FIXED_SCALE > 0,
                ;
            }
        }
        r
    }

    /// Largest quantity on either side; zero for an empty book.
    pub fn max_quantity(&self) -> (r: Quantity)
        ensures
            r.0 == (if max_qty(self.bids@) >= max_qty(self.asks@) {
                max_qty(self.bids@)
            } else {
                max_qty(self.asks@)
            }),
    {
        let b = largest_qty(&self.bids);
        let a = largest_qty(&self.asks);
        if b >= a {
            Quantity(b)
        } else {
            Quantity(a)
        }
    }

    /// Lowest bid and highest ask, the last level of each side; one side's
    /// price twice when the other is empty.
    pub fn price_range(&self) -> (r: Option<(Price, Price)>)
        ensures
            r == (if self.bids@.len() > 0 && self.asks@.len() > 0 {
                Some((self.bids@.last().price, self.asks@.last().price))
            } else if self.bids@.len() > 0 {
                Some((self.bids@.last().price, self.bids@.last().price))
            } else if self.asks@.len() > 0 {
                Some((self.asks@.last().price, self.asks@.last().price))
            } else {
                None::<(Price, Price)>
            }),
    {
        let nb = self.bids.len();
        let na = self.asks.len();
        if nb > 0 && na > 0 {
            Some((self.bids[nb - 1].price, self.asks[na - 1].price))
        } else if nb > 0 {
            Some((self.bids[nb - 1].price, self.bids[nb - 1].price))
        } else if na > 0 {
            Some((self.asks[na - 1].price, self.asks[na - 1].price))
        } else {
            None
        }
    }
}

fn largest_qty(levels: &Vec<OrderBookLevel>) -> (r: u64)
    ensures
        r == max_qty(levels@),
{
    let n = levels.len();
    let mut m: u64 = 0;
    let mut i: usize = 0;
    while i < n
        invariant
            n == levels@.len(),
            i <= n,
            m == max_qty(levels@.subrange(0, i as int)),
        decreases n - i,
    {
        proof {
            assert(levels@.subrange(0, i + 1).drop_last() =~= levels@.subrange(0, i as int));
        }
        if levels[i].quantity.0 > m {
            m = levels[i].quantity.0;
        }
        i = i + 1;
    }
    assert(levels@.subrange(0, n as int) =~= levels@);
    m
}

/// One point of a depth curve: a price and the quantity and value available
/// at it or better.
#[derive(Debug, Clone, Copy, PartialEq, Eq, Structural)]
pub struct DepthPoint {
    pub price: Price,
    pub cumulative_quantity: u128,
    pub cumulative_value: u128,
}

/// The depth point of level `i` of `s`: sums over levels `0..=i`.
pub open spec fn depth_point(s: Seq<OrderBookLevel>, i: int) -> DepthPoint {
    DepthPoint {
        price: s[i].price,
        cumulative_quantity: sum_qty(s.subrange(0, i + 1)) as u128,
        cumulative_value: sum_value(s.subrange(0, i + 1)) as u128,
    }
}

/// The depth curve of one side of a book, in the side's order.
pub open spec fn depth_side(s: Seq<OrderBookLevel>) -> Seq<DepthPoint> {
    Seq::new(s.len(), |i: int| depth_point(s, i))
}

/// Cumulative quantities along one side never decrease, and the last one is
/// the side's total depth.
pub proof fn lemma_depth_side_monotone(s: Seq<OrderBookLevel>)
    requires
        s.len() <= MAX_BOOK_LEVELS,
    ensures
        forall|i: int, j: int|
            0 <= i <= j < s.len() ==> #[trigger] depth_side(s)[i].cumulative_quantity
                <= #[trigger] depth_side(s)[j].cumulative_quantity,
        s.len() > 0 ==> depth_side(s).last().cumulative_quantity == sum_qty(s),
{
    assert forall|i: int, j: int|
        0 <= i <= j < s.len() implies #[trigger] depth_side(s)[i].cumulative_quantity
        <= #[trigger] depth_side(s)[j].cumulative_quantity by {
        lemma_sum_qty_prefix(s, i + 1, j + 1);
        lemma_sum_qty_prefix(s, j + 1, s.len() as int);
        lemma_sum_qty_bound(s.subrange(0, s.len() as int));
        assert(s.len() * 0xffff_ffff_ffff_ffff <= 0x10_0000 * 0xffff_ffff_ffff_ffff)
            by (nonlinear_arith)
            requires
                s.len() <= 0x10_0000,
        ;
    }
    if s.len() > 0 {
        assert(s.subrange(0, s.len() as int) =~= s);
        lemma_sum_qty_bound(s);
        assert(s.len() * 0xffff_ffff_ffff_ffff <= 0x10_0000 * 0xffff_ffff_ffff_ffff)
            by (nonlinear_arith)
            requires
                s.len() <= 0x10_0000,
        ;
    }
}

/// On each side of a book the depth curve's cumulative quantity never
/// decreases, and its last point holds the side's total depth.
pub proof fn law_depth_monotone(book: OrderBookSnapshot)
    requires
        book.within_limits_spec(),
    ensures
        forall|i: int, j: int|
            0 <= i <= j < book.bids@.len() ==> #[trigger] depth_side(book.bids@)[i].cumulative_quantity
                <= #[trigger] depth_side(book.bids@)[j].cumulative_quantity,
        forall|i: int, j: int|
            0 <= i <= j < book.asks@.len() ==> #[trigger] depth_side(book.asks@)[i].cumulative_quantity
                <= #[trigger] depth_side(book.asks@)[j].cumulative_quantity,
        book.bids@.len() > 0 ==> depth_side(book.bids@).last().cumulative_quantity == sum_qty(book.bids@),
        book.asks@.len() > 0 ==> depth_side(book.asks@).last().cumulative_quantity == sum_qty(book.asks@),
{
    lemma_depth_side_monotone(book.bids@);
    lemma_depth_side_monotone(book.asks@);
}

fn depth_curve(levels: &Vec<OrderBookLevel>) -> (r: Vec<DepthPoint>)
    requires
        levels@.len() <= MAX_BOOK_LEVELS,
    ensures
        r@ == depth_side(levels@),
{
    let n = levels.len();
    let mut out: Vec<DepthPoint> = Vec::with_capacity(n);
    let mut cum_qty: u128 = 0;
    let mut cum_val: u128 = 0;
    let mut i: usize = 0;
    while i < n
        invariant
            n == levels@.len(),
            n <= MAX_BOOK_LEVELS,
            i <= n,
            cum_qty == sum_qty(levels@.subrange(0, i as int)),
            cum_val == sum_value(levels@.subrange(0, i as int)),
            out@.len() == i,
            forall|k: int| 0 <= k < i ==> out@[k] == depth_point(levels@, k),
        decreases n - i,
    {
        proof {
            assert(levels@.subrange(0, i + 1).drop_last() =~= levels@.subrange(0, i as int));
            lemma_sum_value_bound(levels@.subrange(0, i + 1));
            lemma_sum_qty_bound(levels@.subrange(0, i + 1));
            let k = (i + 1) as int;
            assert(k * 0x40_0000_0000_0000_0000_0000_0000 <= 0x10_0000 * 0x40_0000_0000_0000_0000_0000_0000) by (nonlinear_arith)
                requires
                    k <= 0x10_0000,
            ;
            assert(k * 0xffff_ffff_ffff_ffff <= 0x10_0000 * 0xffff_ffff_ffff_ffff) by (nonlinear_arith)
                requires
                    k <= 0x10_0000,
            ;
        }
        let level = &levels[i];
        cum_qty = cum_qty + level.quantity.0 as u128;
        cum_val = cum_val + level.value();
        out.push(DepthPoint { price: level.price, cumulative_quantity: cum_qty, cumulative_value: cum_val });
        i = i + 1;
    }
    assert(out@ =~= depth_side(levels@));
    out
}

/// Cumulative depth of both sides of a book.
#[derive(Debug)]
pub struct MarketDepth {
    pub symbol: Symbol,
    pub bid_depth: Vec<DepthPoint>,
    pub ask_depth: Vec<DepthPoint>,
}

/// Smallest price of `s`; `u64::MAX` for no point.
pub open spec fn min_point_price(s: Seq<DepthPoint>) -> u64
    decreases s.len(),
{
    if s.len() == 0 {
        u64::MAX
    } else {
        let m = min_point_price(s.drop_last());
        if s.last().price.0 < m { s.last().price.0 } else { m }
    }
}

/// Largest price of `s`; zero for no point.
pub open spec fn max_point_price(s: Seq<DepthPoint>) -> u64
    decreases s.len(),
{
    if s.len() == 0 {
        0
    } else {
        let m = max_point_price(s.drop_last());
        if s.last().price.0 > m { s.last().price.0 } else { m }
    }
}

fn point_price_bounds(points: &Vec<DepthPoint>) -> (r: (u64, u64))
    ensures
        r == (min_point_price(points@), max_point_price(points@)),
{
    let n = points.len();
    let mut lo: u64 = u64::MAX;
    let mut hi: u64 = 0;
    let mut i: usize = 0;
    while i < n
        invariant
            n == points@.len(),
            i <= n,
            lo == min_point_price(points@.subrange(0, i as int)),
            hi == max_point_price(points@.subrange(0, i as int)),
        decreases n - i,
    {
        proof {
            assert(points@.subrange(0, i + 1).drop_last() =~= points@.subrange(0, i as int));
        }
        if points[i].price.0 < lo {
            lo = points[i].price.0;
        }
        if points[i].price.0 > hi {
            hi = points[i].price.0;
        }
        i = i + 1;
    }
    assert(points@.subrange(0, n as int) =~= points@);
    (lo, hi)
}

impl MarketDepth {
    /// Builds the cumulative curves of `book`, best level first on each side.
    pub fn from_orderbook(book: &OrderBookSnapshot) -> (r: MarketDepth)
        requires
            book.within_limits_spec(),
        ensures
            r.symbol == book.symbol,
            r.bid_depth@ == depth_side(book.bids@),
            r.ask_depth@ == depth_side(book.asks@),
    {
        let bid_depth = depth_curve(&book.bids);
        let ask_depth = depth_curve(&book.asks);
        MarketDepth { symbol: book.symbol.clone(), bid_depth, ask_depth }
    }

    /// Lowest and highest price over both curves.
    pub fn price_range(&self) -> (r: Option<(Price, Price)>)
        ensures
            self.bid_depth@.len() + self.ask_depth@.len() == 0 ==> r.is_none(),
            self.bid_depth@.len() + self.ask_depth@.len() > 0 ==> r == Some(
                (
                    Price(min_point_price(self.bid_depth@ + self.ask_depth@)),
                    Price(max_point_price(self.bid_depth@ + self.ask_depth@)),
                ),
            ),
    {
        if self.bid_depth.len() == 0 && self.ask_depth.len() == 0 {
            return None;
        }
        let mut all: Vec<DepthPoint> = self.bid_depth.clone();
        let mut rest: Vec<DepthPoint> = self.ask_depth.clone();
        all.append(&mut rest);
        let (lo, hi) = point_price_bounds(&all);
        Some((Price(lo), Price(hi)))
    }

    /// The larger of the two sides' total cumulative quantity.
    pub fn max_depth(&self) -> (r: u128)
        ensures
            r == (if side_total(self.bid_depth@) >= side_total(self.ask_depth@) {
                side_total(self.bid_depth@)
            } else {
                side_total(self.ask_depth@)
            }),
    {
        let nb = self.bid_depth.len();
        let na = self.ask_depth.len();
        let b = if nb > 0 {
            self.bid_depth[nb - 1].cumulative_quantity
        } else {
            0
        };
        let a = if na > 0 {
            self.ask_depth[na - 1].cumulative_quantity
        } else {
            0
        };
        if b >= a {
            b
        } else {
            a
        }
    }

    /// Mean of the first bid and the first ask price, rounded down.
    pub fn mid_price(&self) -> (r: Option<Price>)
        ensures
            r == (if self.bid_depth@.len() > 0 && self.ask_depth@.len() > 0 {
                Some(
                    Price(((self.bid_depth@[0].price.0 + self.ask_depth@[0].price.0) / 2) as u64),
                )
            } else {
                None::<Price>
            }),
    {
        if self.bid_depth.len() > 0 && self.ask_depth.len() > 0 {
            let s = self.bid_depth[0].price.0 as u128 + self.ask_depth[0].price.0 as u128;
            Some(Price((s / 2) as u64))
        } else {
            None
        }
    }
}

/// The last cumulative quantity of a curve; zero for an empty one.
pub open spec fn side_total(s: Seq<DepthPoint>) -> u128 {
    if s.len() > 0 {
        s.last().cumulative_quantity
    } else {
        0
    }
}

/// A change at one price level.
#[derive(Debug)]
pub struct OrderBookDelta {
    pub symbol: Symbol,
    pub side: OrderSide,
    pub price: Price,
    pub quantity: Quantity,
    pub sequence: u64,
}

impl OrderBookDelta {
    /// A delta with zero quantity removes its level.
    pub fn is_removal(&self) -> (r: bool)
        ensures
            r == (self.quantity.0 == 0),
    {
        self.quantity.0 == 0
    }
}

/// Levels of one price bucket merged into one.
#[derive(Debug, Clone, Copy, PartialEq, Eq, Structural)]
pub struct AggregatedLevel {
    /// Lowest price of the bucket, raw fixed-point.
    pub price_min: u128,
    /// Price just past the bucket, raw fixed-point.
    pub price_max: u128,
    pub total_quantity: u128,
    pub order_count: u128,
}

/// The merged level of a bucket holding only `l`, for buckets of width `w`.
pub open spec fn fresh_entry(l: OrderBookLevel, w: u64) -> AggregatedLevel {
    let k = l.price.0 as nat / w as nat;
    AggregatedLevel {
        price_min: (k * w) as u128,
        price_max: ((k + 1) * w) as u128,
        total_quantity: l.quantity.0 as u128,
        order_count: l.order_count as u128,
    }
}

/// `e` with `l` added to its totals; sums saturate at `u128::MAX`.
pub open spec fn add_to(e: AggregatedLevel, l: OrderBookLevel) -> AggregatedLevel {
    AggregatedLevel {
        total_quantity: capped(e.total_quantity + l.quantity.0, u128::MAX as int) as u128,
        order_count: capped(e.order_count + l.order_count, u128::MAX as int) as u128,
        ..e
    }
}

/// Merged levels ordered by bucket, with `l` taken in: added to its bucket
/// when present, else a new bucket in its place.
pub open spec fn insert_level(e: Seq<AggregatedLevel>, l: OrderBookLevel, w: u64) -> Seq<AggregatedLevel>
    decreases e.len(),
{
    let f = fresh_entry(l, w);
    if e.len() == 0 {
        seq![f]
    } else if e[0].price_min == f.price_min {
        seq![add_to(e[0], l)] + e.drop_first()
    } else if e[0].price_min > f.price_min {
        seq![f] + e
    } else {
        seq![e[0]] + insert_level(e.drop_first(), l, w)
    }
}

/// The levels of `s` merged by buckets of width `w`, lowest bucket first.
pub open spec fn aggregated(s: Seq<OrderBookLevel>, w: u64) -> Seq<AggregatedLevel>
    decreases s.len(),
{
    if s.len() == 0 {
        Seq::empty()
    } else {
        insert_level(aggregated(s.drop_last(), w), s.last(), w)
    }
}

/// Merged levels with strictly increasing lower bounds.
pub open spec fn strictly_ascending(e: Seq<AggregatedLevel>) -> bool {
    forall|a: int, b: int| 0 <= a < b < e.len() ==> #[trigger] e[a].price_min < #[trigger] e[b].price_min
}

proof fn lemma_insert_keeps_order(e: Seq<AggregatedLevel>, l: OrderBookLevel, w: u64)
    requires
        strictly_ascending(e),
    ensures
        strictly_ascending(insert_level(e, l, w)),
        forall|t: int| 0 <= t < insert_level(e, l, w).len() ==> (#[trigger] insert_level(e, l, w)[t]).price_min == fresh_entry(l, w).price_min
            || exists|u: int| 0 <= u < e.len() && e[u].price_min == insert_level(e, l, w)[t].price_min,
    decreases e.len(),
{
    let f = fresh_entry(l, w);
    let r = insert_level(e, l, w);
    if e.len() == 0 {
    } else if e[0].price_min == f.price_min {
        assert forall|t: int| 0 <= t < r.len() implies (#[trigger] r[t]).price_min == f.price_min
            || exists|u: int| 0 <= u < e.len() && e[u].price_min == r[t].price_min by {
            if t > 0 {
                assert(r[t] == e[t]);
            }
        }
        assert forall|a: int, b: int| 0 <= a < b < r.len() implies #[trigger] r[a].price_min < #[trigger] r[b].price_min by {
            assert(r[b] == e[b]);
            if a > 0 {
                assert(r[a] == e[a]);
            }
        }
    } else if e[0].price_min > f.price_min {
        assert forall|t: int| 0 <= t < r.len() implies (#[trigger] r[t]).price_min == f.price_min
            || exists|u: int| 0 <= u < e.len() && e[u].price_min == r[t].price_min by {
            if t > 0 {
                assert(r[t] == e[t - 1]);
            }
        }
        assert forall|a: int, b: int| 0 <= a < b < r.len() implies #[trigger] r[a].price_min < #[trigger] r[b].price_min by {
            assert(r[b] == e[b - 1]);
            if a > 0 {
                assert(r[a] == e[a - 1]);
            } else if b > 1 {
                assert(e[0].price_min < e[b - 1].price_min);
            }
        }
    } else {
        let rest = e.drop_first();
        assert forall|a: int, b: int| 0 <= a < b < rest.len() implies #[trigger] rest[a].price_min < #[trigger] rest[b].price_min by {
            assert(rest[a] == e[a + 1] && rest[b] == e[b + 1]);
        }
        lemma_insert_keeps_order(rest, l, w);
        let ir = insert_level(rest, l, w);
        assert(r == seq![e[0]] + ir);
        assert forall|t: int| 0 <= t < ir.len() implies e[0].price_min < (#[trigger] ir[t]).price_min by {
            if ir[t].price_min != f.price_min {
                let u = choose|u: int| 0 <= u < rest.len() && rest[u].price_min == ir[t].price_min;
                assert(rest[u] == e[u + 1]);
            }
        }
        assert forall|t: int| 0 <= t < r.len() implies (#[trigger] r[t]).price_min == f.price_min
            || exists|u: int| 0 <= u < e.len() && e[u].price_min == r[t].price_min by {
            if t > 0 {
                assert(r[t] == ir[t - 1]);
                if ir[t - 1].price_min != f.price_min {
                    let u = choose|u: int| 0 <= u < rest.len() && rest[u].price_min == ir[t - 1].price_min;
                    assert(rest[u] == e[u + 1]);
                }
            } else {
                assert(e[0].price_min == r[0].price_min);
            }
        }
        assert forall|a: int, b: int| 0 <= a < b < r.len() implies #[trigger] r[a].price_min < #[trigger] r[b].price_min by {
            assert(r[b] == ir[b - 1]);
            if a > 0 {
                assert(r[a] == ir[a - 1]);
            }
        }
    }
}

/// Merged levels come out one per bucket, lowest bucket first.
pub proof fn law_aggregated_ascending(s: Seq<OrderBookLevel>, w: u64)
    ensures
        strictly_ascending(aggregated(s, w)),
    decreases s.len(),
{
    if s.len() > 0 {
        law_aggregated_ascending(s.drop_last(), w);
        lemma_insert_keeps_order(aggregated(s.drop_last(), w), s.last(), w);
    }
}

proof fn lemma_insert_at(e: Seq<AggregatedLevel>, l: OrderBookLevel, w: u64, j: int)
    requires
        0 <= j <= e.len(),
        forall|t: int| 0 <= t < j ==> e[t].price_min < fresh_entry(l, w).price_min,
        j < e.len() ==> e[j].price_min >= fresh_entry(l, w).price_min,
    ensures
        insert_level(e, l, w) == (if j < e.len() && e[j].price_min == fresh_entry(l, w).price_min {
            e.update(j, add_to(e[j], l))
        } else {
            e.insert(j, fresh_entry(l, w))
        }),
    decreases j,
{
    let f = fresh_entry(l, w);
    if j == 0 {
        if e.len() == 0 {
            assert(e.insert(0, f) =~= seq![f]);
        } else if e[0].price_min == f.price_min {
            assert(seq![add_to(e[0], l)] + e.drop_first() =~= e.update(0, add_to(e[0], l)));
        } else {
            assert(seq![f] + e =~= e.insert(0, f));
        }
    } else {
        let rest = e.drop_first();
        assert forall|t: int| 0 <= t < j - 1 implies rest[t].price_min < f.price_min by {
            assert(rest[t] == e[t + 1]);
        }
        lemma_insert_at(rest, l, w, j - 1);
        if j < e.len() && e[j].price_min == f.price_min {
            assert(rest[j - 1] == e[j]);
            assert(seq![e[0]] + rest.update(j - 1, add_to(e[j], l)) =~= e.update(j, add_to(e[j], l)));
        } else {
            if j < e.len() {
                assert(rest[j - 1] == e[j]);
            }
            assert(seq![e[0]] + rest.insert(j - 1, f) =~= e.insert(j, f));
        }
    }
}

/// A way of merging the levels of one side of a book.
pub trait DepthAggregator {
    spec fn aggregate_spec(&self, levels: Seq<OrderBookLevel>, r: Seq<AggregatedLevel>) -> bool;

    fn aggregate(&self, levels: &[OrderBookLevel]) -> (r: Vec<AggregatedLevel>)
        ensures
            self.aggregate_spec(levels@, r@),
    ;
}

/// Buckets of a fixed price width.
#[derive(Debug, Clone, Copy)]
pub struct FixedBucketAggregator {
    /// Width of a bucket, raw fixed-point; zero puts every level in one bucket.
    pub bucket_size: u64,
}

impl Default for FixedBucketAggregator {
    fn default() -> (r: Self)
        ensures
            r.bucket_size == 10 * FIXED_SCALE,
    {
        FixedBucketAggregator { bucket_size: 10 * FIXED_SCALE }
    }
}

impl FixedBucketAggregator {
    /// The effective width: a zero width counts as the largest one.
    pub open spec fn width(&self) -> u64 {
        if self.bucket_size == 0 { u64::MAX } else { self.bucket_size }
    }
}

impl DepthAggregator for FixedBucketAggregator {
    /// Exactly the merged levels, lowest bucket first.
    open spec fn aggregate_spec(&self, levels: Seq<OrderBookLevel>, r: Seq<AggregatedLevel>) -> bool {
        r == aggregated(levels, self.width())
    }

    fn aggregate(&self, levels: &[OrderBookLevel]) -> (r: Vec<AggregatedLevel>) {
        let w: u64 = if self.bucket_size == 0 {
            u64::MAX
        } else {
            self.bucket_size
        };
        let n = levels.len();
        let mut out: Vec<AggregatedLevel> = Vec::new();
        let mut i: usize = 0;
        while i < n
            invariant
                n == levels@.len(),
                i <= n,
                w == self.width(),
                w > 0,
                out@ == aggregated(levels@.subrange(0, i as int), w),
            decreases n - i,
        {
            proof {
                assert(levels@.subrange(0, i + 1).drop_last() =~= levels@.subrange(0, i as int));
            }
            merge_level(&mut out, levels[i], w);
            i = i + 1;
        }
        assert(levels@.subrange(0, n as int) =~= levels@);
        out
    }
}

/// Takes `level` into the merged levels `out`.
fn merge_level(out: &mut Vec<AggregatedLevel>, level: OrderBookLevel, w: u64)
    requires
        w > 0,
    ensures
        final(out)@ == insert_level(old(out)@, level, w),
{
    let k: u64 = level.price.0 / w;
    proof {
        assert(k as nat * w as nat <= level.price.0) by (nonlinear_arith)
            requires
                k == level.price.0 / w,
                w > 0,
        ;
        assert((k as nat + 1) * w as nat == k as nat * w as nat + w as nat) by (nonlinear_arith);
    }
    let fresh = AggregatedLevel {
        price_min: k as u128 * w as u128,
        price_max: (k as u128 + 1) * w as u128,
        total_quantity: level.quantity.0 as u128,
        order_count: level.order_count as u128,
    };
    assert(fresh == fresh_entry(level, w));
    let mut j: usize = 0;
    while j < out.len() && out[j].price_min < fresh.price_min
        invariant
            j <= out@.len(),
            forall|t: int| 0 <= t < j ==> out@[t].price_min < fresh.price_min,
        decreases out@.len() - j,
    {
        j = j + 1;
    }
    proof {
        lemma_insert_at(out@, level, w, j as int);
    }
    if j < out.len() && out[j].price_min == fresh.price_min {
        let e = out[j];
        let merged = AggregatedLevel {
            price_min: e.price_min,
            price_max: e.price_max,
            total_quantity: e.total_quantity.saturating_add(level.quantity.0 as u128),
            order_count: e.order_count.saturating_add(level.order_count as u128),
        };
        out.set(j, merged);
    } else {
        out.insert(j, fresh);
    }
}

impl OrderBookSnapshot {
    /// Both sides merged by `aggregator`.
    pub fn aggregate_with<A: DepthAggregator>(&self, aggregator: &A) -> (r: (
        Vec<AggregatedLevel>,
        Vec<AggregatedLevel>,
    ))
        ensures
            aggregator.aggregate_spec(self.bids@, r.0@),
            aggregator.aggregate_spec(self.asks@, r.1@),
    {
        (aggregator.aggregate(self.bids.as_slice()), aggregator.aggregate(self.asks.as_slice()))
    }
}

} // verus!
