use market_dash::candle::{BasicPatternDetector, Candle, CandleHistory, CandleInterval, CandlePattern, CandlePatternDetector};
use market_dash::order::{DepthAggregator, FixedBucketAggregator, MarketDepth, OrderBookLevel, OrderBookSnapshot};
use market_dash::ticker::Ticker;
use market_dash::trade::{Trade, TradeAggregation, TradeClassification, TradeClassifier, TradeSide, ValueThresholdClassifier};
use market_dash::types::{CompactNumberFormatter, DecimalPriceFormatter, LargeNumberFormatter, Price, Quantity, Symbol, FIXED_SCALE};

fn px(v: f64) -> Price {
    Price::new((v * FIXED_SCALE as f64).round() as u64)
}

fn qty(v: f64) -> Quantity {
    Quantity::new((v * FIXED_SCALE as f64).round() as u64)
}

fn raw(v: f64) -> i128 {
    (v * FIXED_SCALE as f64).round() as i128
}

fn sym(s: &str) -> Symbol {
    Symbol::new(s.to_string())
}

#[test]
fn test_symbol_parsing() {
    let sym = Symbol::new("ETH-BTC".to_string());
    assert_eq!(sym.base(), "ETH");
    assert_eq!(sym.quote(), "BTC");
}

#[test]
fn symbol_without_separator() {
    let s = sym("BTCUSD");
    assert_eq!(s.base(), "BTCUSD");
    assert_eq!(s.quote(), "USD");
    assert_eq!(s.as_str(), "BTCUSD");
    let t = sym("A-B-C");
    assert_eq!(t.base(), "A");
    assert_eq!(t.quote(), "B");
    assert_eq!(Symbol::default().as_str(), "BTC-USD");
}

#[test]
fn test_price_formatter_strategy() {
    let formatter = DecimalPriceFormatter { decimals: 4 };
    let price = px(42.5678);
    assert_eq!(price.format_with(&formatter), "42.5678");
}

#[test]
fn test_compact_formatter() {
    let formatter = CompactNumberFormatter;
    assert_eq!(formatter.format(raw(1_500_000.0)), "1.50M");
    assert_eq!(formatter.format(raw(2_500.0)), "2.50K");
    assert_eq!(formatter.format(raw(500.0)), "500.00");
}

#[test]
fn compact_formatter_negative_and_billions() {
    let formatter = CompactNumberFormatter;
    assert_eq!(formatter.format(raw(-2_500.0)), "-2.50K");
    assert_eq!(formatter.format(raw(3_000_000_000.0)), "3.00B");
    assert_eq!(formatter.format(0), "0.00");
}

#[test]
fn price_format_rounds_half_up() {
    assert_eq!(px(1.005).format(2), "1.01");
    assert_eq!(px(1.5).format(0), "2");
    assert_eq!(px(0.5).format(10), "0.5000000000");
    let f = DecimalPriceFormatter::default();
    assert_eq!(px(50000.0).format_with(&f), "50000.00");
    assert_eq!(px(0.00005).format_with(&f), "0.00005000");
}

#[test]
fn test_candle_update() {
    let mut candle = Candle::new(Symbol::default(), CandleInterval::M1, 1700000000000, px(50000.0));

    candle.update(px(50100.0), qty(0.5));
    candle.update(px(49900.0), qty(0.3));
    candle.update(px(50050.0), qty(0.2));

    assert_eq!(candle.high, px(50100.0));
    assert_eq!(candle.low, px(49900.0));
    assert_eq!(candle.close, px(50050.0));
    assert_eq!(candle.volume, qty(1.0));
    assert_eq!(candle.trade_count, 3);
}

#[test]
fn candle_keeps_ohlc_order_over_trades() {
    let mut c = Candle::new(Symbol::default(), CandleInterval::M5, 0, px(100.0));
    for p in [101.0, 99.0, 120.0, 80.0, 100.5] {
        c.update(px(p), qty(1.0));
        assert!(c.high.0 >= c.open.0 && c.high.0 >= c.close.0 && c.high.0 >= c.low.0);
        assert!(c.low.0 <= c.open.0 && c.low.0 <= c.close.0);
    }
    assert_eq!(c.high, px(120.0));
    assert_eq!(c.low, px(80.0));
    assert_eq!(c.quote_volume, raw(500.5) as u128);
}

#[test]
fn test_candle_bullish_bearish() {
    let mut bullish = Candle::new(Symbol::default(), CandleInterval::M1, 0, px(100.0));
    bullish.close = px(110.0);
    assert!(bullish.is_bullish());

    let mut bearish = Candle::new(Symbol::default(), CandleInterval::M1, 0, px(100.0));
    bearish.close = px(90.0);
    assert!(bearish.is_bearish());
}

#[test]
fn candle_change_percent() {
    let mut c = Candle::new(Symbol::default(), CandleInterval::M1, 0, px(100.0));
    c.close = px(90.0);
    assert_eq!(c.change(), -raw(10.0));
    assert_eq!(c.change_percent(), -raw(10.0));
    assert_eq!(c.body_size(), px(10.0).0);
    assert_eq!(c.fill_color(), "#ef4444");
    assert_eq!(c.css_class(), "candle-bearish");
}

#[test]
fn test_doji_detection() {
    let detector = BasicPatternDetector::new();

    let mut doji = Candle::new(Symbol::default(), CandleInterval::M1, 0, px(100.0));
    doji.high = px(105.0);
    doji.low = px(95.0);
    doji.close = px(100.5);

    let patterns = detector.detect(&[doji]);
    assert!(patterns.contains(&CandlePattern::Doji));
}

#[test]
fn hammer_detection() {
    let detector = BasicPatternDetector::new();
    let mut c = Candle::new(Symbol::default(), CandleInterval::M1, 0, px(100.0));
    c.close = px(102.0);
    c.high = px(102.5);
    c.low = px(90.0);
    let patterns = c.detect_patterns_with(&detector);
    assert_eq!(patterns, vec![CandlePattern::Hammer]);
    assert!(CandlePattern::Hammer.is_bullish());
    assert_eq!(CandlePattern::InvertedHammer.name(), "Inverted Hammer");
}

#[test]
fn candle_history_ranges() {
    let mut h = CandleHistory::new(Symbol::default(), CandleInterval::H1);
    assert!(h.price_range().is_none());
    let mut a = Candle::new(Symbol::default(), CandleInterval::H1, 10, px(100.0));
    a.update(px(110.0), qty(2.0));
    let mut b = Candle::new(Symbol::default(), CandleInterval::H1, 20, px(95.0));
    b.update(px(90.0), qty(1.0));
    h.push(a);
    h.push(b);
    assert_eq!(h.price_range(), Some((px(90.0), px(110.0))));
    assert_eq!(h.volume_range(), Some((qty(1.0), qty(2.0))));
    assert_eq!(h.time_range(), Some((10, 20)));
    assert_eq!(h.tail(1).len(), 1);
    assert_eq!(h.tail(5).len(), 2);
    assert_eq!(h.latest().unwrap().timestamp, 20);
}

#[test]
fn interval_lengths() {
    assert_eq!(CandleInterval::H4.as_secs(), 14400);
    assert_eq!(CandleInterval::M5.as_millis(), 300_000);
    assert_eq!(CandleInterval::D1.label(), "1D");
    assert_eq!(CandleInterval::all().len(), 8);
}

fn sample_orderbook() -> OrderBookSnapshot {
    let mut book = OrderBookSnapshot::new(sym("BTC-USD"));
    book.bids = vec![
        OrderBookLevel::new(px(50000.0), qty(1.0), 5),
        OrderBookLevel::new(px(49990.0), qty(2.0), 8),
        OrderBookLevel::new(px(49980.0), qty(1.5), 3),
    ];
    book.asks = vec![
        OrderBookLevel::new(px(50010.0), qty(0.8), 4),
        OrderBookLevel::new(px(50020.0), qty(1.2), 6),
        OrderBookLevel::new(px(50030.0), qty(2.0), 10),
    ];
    book
}

#[test]
fn test_spread() {
    let book = sample_orderbook();
    assert_eq!(book.spread(), Some(raw(10.0)));
}

#[test]
fn test_mid_price() {
    let book = sample_orderbook();
    assert_eq!(book.mid_price(), Some(px(50005.0)));
}

#[test]
fn test_imbalance() {
    let book = sample_orderbook();
    let imb = book.imbalance();
    assert!(imb > 0);
}

#[test]
fn imbalance_exact_value() {
    let book = sample_orderbook();
    // (4.5 - 4.0) / 8.5, rounded away from zero
    assert_eq!(book.imbalance(), 5_882_353);
    assert_eq!(book.total_bid_depth(), raw(4.5) as u128);
    assert_eq!(book.total_ask_depth(), raw(4.0) as u128);
    let empty = OrderBookSnapshot::new(sym("BTC-USD"));
    assert_eq!(empty.imbalance(), 0);
    assert_eq!(empty.spread(), None);
    assert_eq!(empty.mid_price(), None);
}

#[test]
fn test_market_depth() {
    let book = sample_orderbook();
    let depth = MarketDepth::from_orderbook(&book);

    assert_eq!(depth.bid_depth.len(), 3);
    assert_eq!(depth.ask_depth.len(), 3);

    assert_eq!(depth.bid_depth[0].cumulative_quantity, raw(1.0) as u128);
    assert_eq!(depth.bid_depth[2].cumulative_quantity, raw(4.5) as u128);
}

#[test]
fn depth_is_monotone_and_ends_at_total() {
    let book = sample_orderbook();
    let depth = MarketDepth::from_orderbook(&book);
    for side in [&depth.bid_depth, &depth.ask_depth] {
        for w in side.windows(2) {
            assert!(w[0].cumulative_quantity <= w[1].cumulative_quantity);
        }
    }
    assert_eq!(depth.bid_depth.last().unwrap().cumulative_quantity, book.total_bid_depth());
    assert_eq!(depth.ask_depth.last().unwrap().cumulative_quantity, book.total_ask_depth());
    assert_eq!(depth.max_depth(), raw(4.5) as u128);
    assert_eq!(depth.mid_price(), Some(px(50005.0)));
    assert_eq!(depth.price_range(), Some((px(49980.0), px(50030.0))));
}

#[test]
fn orderbook_spread_percent_and_ranges() {
    let book = sample_orderbook();
    // 10 / 50005 * 100 = 0.0199980001...%
    assert_eq!(book.spread_percent(), Some(1_999_800));
    assert_eq!(book.price_range(), Some((px(49980.0), px(50030.0))));
    assert_eq!(book.max_quantity(), qty(2.0));
    let level = OrderBookLevel::new(px(10.0), qty(3.0), 1);
    assert_eq!(level.value(), raw(30.0) as u128);
    assert_eq!(level.quantity_percent(qty(6.0)), raw(50.0));
    assert_eq!(level.quantity_percent(qty(1.0)), raw(100.0));
    assert_eq!(level.quantity_percent(qty(0.0)), 0);
}

#[test]
fn test_ticker_spread() {
    let mut ticker = Ticker::new(sym("BTC-USD"), px(50000.0));
    ticker.bid_price = px(49990.0);
    ticker.ask_price = px(50010.0);

    assert_eq!(ticker.spread(), raw(20.0));
    assert!((ticker.mid_price().0 as i128 - raw(50000.0)).abs() < raw(0.01));
}

#[test]
fn test_range_position() {
    let mut ticker = Ticker::new(sym("BTC-USD"), px(50000.0));
    ticker.high_24h = px(52000.0);
    ticker.low_24h = px(48000.0);
    ticker.last_price = px(50000.0);

    assert!((ticker.range_position() - raw(0.5)).abs() < raw(0.01));
}

#[test]
fn test_update_from_trade() {
    let mut ticker = Ticker::new(sym("BTC-USD"), px(50000.0));
    ticker.open_24h = px(50000.0);

    ticker.update_from_trade(px(51000.0), qty(1.0));

    assert_eq!(ticker.last_price, px(51000.0));
    assert_eq!(ticker.change_24h, raw(1000.0));
    assert!((ticker.change_percent_24h - raw(2.0)).abs() < raw(0.01));
}

#[test]
fn ticker_seed_values() {
    let t = Ticker::new(sym("BTC-USD"), px(100.0));
    assert_eq!(t.bid_price, px(99.99));
    assert_eq!(t.ask_price, px(100.01));
    assert_eq!(t.high_24h, px(105.0));
    assert_eq!(t.low_24h, px(95.0));
    assert_eq!(t.vwap_24h(), raw(100.0) as u128);
    assert!(t.is_up());
    assert_eq!(t.arrow(), "\u{25B2}");
}

#[test]
fn test_trade_value() {
    let trade = Trade::new(sym("BTC-USD"), px(50000.0), qty(0.5), TradeSide::Buy);
    assert_eq!(trade.value(), raw(25000.0) as u128);
}

#[test]
fn trade_ids_are_uuids() {
    let a = Trade::new(sym("BTC-USD"), px(1.0), qty(1.0), TradeSide::Sell);
    let b = Trade::new(sym("BTC-USD"), px(1.0), qty(1.0), TradeSide::Sell);
    assert_eq!(a.id.len(), 36);
    assert_ne!(a.id, b.id);
}

#[test]
fn test_trade_classification() {
    let classifier = ValueThresholdClassifier::default();

    let whale = Trade::new(Symbol::default(), px(50000.0), qty(25.0), TradeSide::Buy);
    assert_eq!(whale.classify_with(&classifier), TradeClassification::Whale);

    let normal = Trade::new(Symbol::default(), px(50000.0), qty(0.1), TradeSide::Sell);
    assert_eq!(normal.classify_with(&classifier), TradeClassification::Normal);
}

#[test]
fn classification_edges() {
    let c = ValueThresholdClassifier::default();
    let large = Trade::new(Symbol::default(), px(100000.0), qty(1.0), TradeSide::Buy);
    assert_eq!(c.classify(&large), TradeClassification::Large);
    let micro = Trade::new(Symbol::default(), px(99.0), qty(1.0), TradeSide::Buy);
    assert_eq!(c.classify(&micro), TradeClassification::MicroTrade);
    let whale = Trade::new(Symbol::default(), px(1_000_000.0), qty(1.0), TradeSide::Buy);
    assert!(whale.is_whale());
    assert_eq!(TradeClassification::Whale.icon(), Some("\u{1F40B}"));
    assert_eq!(TradeClassification::Normal.icon(), None);
}

#[test]
fn test_aggregation() {
    let mut agg = TradeAggregation::new(Symbol::default());

    agg.add(&Trade::new(Symbol::default(), px(100.0), qty(1.0), TradeSide::Buy));
    agg.add(&Trade::new(Symbol::default(), px(102.0), qty(2.0), TradeSide::Sell));
    agg.add(&Trade::new(Symbol::default(), px(101.0), qty(1.0), TradeSide::Buy));

    assert_eq!(agg.count, 3);
    assert_eq!(agg.buy_count, 2);
    assert_eq!(agg.sell_count, 1);
    assert_eq!(agg.total_volume, raw(4.0) as u128);
}

#[test]
fn aggregation_derived_values() {
    let mut agg = TradeAggregation::new(Symbol::default());
    agg.add(&Trade::new(Symbol::default(), px(100.0), qty(1.0), TradeSide::Buy));
    agg.add(&Trade::new(Symbol::default(), px(102.0), qty(2.0), TradeSide::Sell));
    agg.add(&Trade::new(Symbol::default(), px(101.0), qty(1.0), TradeSide::Buy));
    // (100 + 204 + 101) / 4
    assert_eq!(agg.vwap, raw(101.25) as u128);
    assert_eq!(agg.high, px(102.0));
    assert_eq!(agg.low, px(100.0));
    assert_eq!(agg.price_change(), raw(1.0));
    assert_eq!(agg.price_change_pct(), raw(1.0));
    assert_eq!(agg.imbalance(), 0);
}

#[test]
fn test_aggregator_strategy() {
    let book = sample_orderbook();
    let aggregator = FixedBucketAggregator { bucket_size: px(50.0).0 };

    let (agg_bids, _agg_asks) = book.aggregate_with(&aggregator);
    assert!(!agg_bids.is_empty());
}

#[test]
fn aggregator_buckets_sorted_with_totals() {
    let book = sample_orderbook();
    let aggregator = FixedBucketAggregator { bucket_size: px(50.0).0 };
    let (bids, asks) = book.aggregate_with(&aggregator);
    // 49990 and 49980 share the 49950 bucket; 50000 opens the next one.
    assert_eq!(bids.len(), 2);
    assert_eq!(bids[0].price_min, px(49950.0).0 as u128);
    assert_eq!(bids[0].price_max, px(50000.0).0 as u128);
    assert_eq!(bids[0].total_quantity, raw(3.5) as u128);
    assert_eq!(bids[0].order_count, 11);
    assert_eq!(bids[1].price_min, px(50000.0).0 as u128);
    assert_eq!(bids[1].order_count, 5);
    assert_eq!(asks.len(), 1);
    assert_eq!(asks[0].total_quantity, raw(4.0) as u128);
    assert!(FixedBucketAggregator::default().aggregate(&[]).is_empty());
}

#[test]
fn trade_time_of_day() {
    let mut t = Trade::new(sym("BTC-USD"), px(1.0), qty(1.0), TradeSide::Buy);
    t.timestamp = 1_700_000_000_026;
    assert_eq!(t.time_str(), "22:13:20.026");
    assert_eq!(t.time_short(), "22:13:20");
    t.timestamp = -1;
    assert_eq!(t.time_str(), "23:59:59.999");
}

#[test]
fn ticker_change_strings() {
    let mut t = Ticker::new(sym("BTC-USD"), px(100.0));
    t.change_24h = raw(1.234);
    t.change_percent_24h = -raw(0.5);
    assert_eq!(t.change_str(), "+1.23");
    assert_eq!(t.change_percent_str(), "-0.50%");
    let mini = market_dash::ticker::MiniTicker::from_ticker(&t);
    assert!(!mini.is_up());
    assert_eq!(mini.color(), "#ef4444");
    let stats = market_dash::ticker::TickerStats::from_ticker(&t);
    assert_eq!(stats.last_price, px(100.0));
}

#[test]
fn imbalance_sign_follows_tiny_difference() {
    let mut book = OrderBookSnapshot::new(sym("BTC-USD"));
    book.bids = vec![OrderBookLevel::new(px(100.0), Quantity::new(100_000_001), 1)];
    book.asks = vec![OrderBookLevel::new(px(101.0), qty(1.0), 1)];
    assert!(book.imbalance() > 0);
    std::mem::swap(&mut book.bids, &mut book.asks);
    assert!(book.imbalance() < 0);
}

#[test]
fn closed_candle_ignores_trades() {
    let mut c = Candle::new(Symbol::default(), CandleInterval::M1, 0, px(100.0));
    c.close_candle();
    c.update(px(150.0), qty(1.0));
    assert_eq!(c.high, px(100.0));
    assert_eq!(c.close, px(100.0));
    assert_eq!(c.trade_count, 0);
}
