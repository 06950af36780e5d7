use market_dash::app_state::{AppState, Panel};
use market_dash::candle::{Candle, CandleInterval};
use market_dash::feed::{FeedError, FeedLoop, LoopAction, LoopEvent, WsClient, WsConfig, WsMessage};
use market_dash::market::{MarketComputed, MarketState, PriceDirection, MAX_CANDLES, MAX_TRADES};
use market_dash::order::{OrderBookLevel, OrderBookSnapshot};
use market_dash::reconnect::{ConstantDelay, ExponentialBackoff, LinearBackoff, ReconnectPolicy};
use market_dash::ticker::Ticker;
use market_dash::trade::{Trade, TradeSide};
use market_dash::types::{ConnectionState, Price, Quantity, Symbol, FIXED_SCALE};

fn px(v: f64) -> Price {
    Price::new((v * FIXED_SCALE as f64).round() as u64)
}

fn qty(v: f64) -> Quantity {
    Quantity::new((v * FIXED_SCALE as f64).round() as u64)
}

fn trade_at(price: f64, ts: i64) -> Trade {
    let mut t = Trade::new(Symbol::default(), px(price), qty(1.0), TradeSide::Buy);
    t.timestamp = ts;
    t
}

#[test]
fn test_exponential_backoff() {
    let policy = ExponentialBackoff {
        initial_delay_ms: 1000,
        max_delay_ms: 10000,
        multiplier: 2000,
        max_attempts: 5,
        jitter: false,
    };

    assert_eq!(policy.delay_ms(0), 1000);
    assert_eq!(policy.delay_ms(1), 2000);
    assert_eq!(policy.delay_ms(2), 4000);
    assert_eq!(policy.delay_ms(3), 8000);
    assert_eq!(policy.delay_ms(4), 10000);
}

#[test]
fn test_should_reconnect() {
    let policy = ExponentialBackoff {
        max_attempts: 3,
        ..Default::default()
    };

    assert!(policy.should_reconnect(0));
    assert!(policy.should_reconnect(2));
    assert!(!policy.should_reconnect(3));
}

#[test]
fn unlimited_attempts_always_reconnect() {
    let policy = ExponentialBackoff::default();
    assert!(policy.should_reconnect(0));
    assert!(policy.should_reconnect(u32::MAX));
    let c = ConstantDelay { delay_ms: 250, max_attempts: 0 };
    assert!(c.should_reconnect(1_000_000));
    assert_eq!(c.delay_ms(7), 250);
}

#[test]
fn test_linear_backoff() {
    let policy = LinearBackoff {
        initial_delay_ms: 1000,
        increment_ms: 500,
        max_delay_ms: 5000,
        max_attempts: 10,
    };

    assert_eq!(policy.delay_ms(0), 1000);
    assert_eq!(policy.delay_ms(1), 1500);
    assert_eq!(policy.delay_ms(2), 2000);
    assert_eq!(policy.delay_ms(10), 5000);
}

#[test]
fn exponential_backoff_edges() {
    let p = ExponentialBackoff::default().with_jitter(false);
    // 1000 * 1.5^k, rounded down at each step, capped at 30000
    assert_eq!(p.delay_ms(1), 1500);
    assert_eq!(p.delay_ms(2), 2250);
    // 1000 * 1.5^6 = 11390.625, rounded down once
    assert_eq!(p.clone().max_delay(60000).delay_ms(6), 11390);
    assert_eq!(p.delay_ms(100), 30000);
    assert_eq!(p.delay_ms(u32::MAX), 30000);
    let flat = ExponentialBackoff::default().with_jitter(false).multiplier(1000);
    assert_eq!(flat.delay_ms(u32::MAX), 1000);
    let shrinking = ExponentialBackoff::default().with_jitter(false).multiplier(500);
    assert_eq!(shrinking.delay_ms(1), 500);
    assert_eq!(shrinking.delay_ms(u32::MAX), 0);
}

#[test]
fn jitter_stays_within_a_fifth() {
    let p = ExponentialBackoff::default().max_delay(10000);
    for attempt in 0..40u32 {
        let base = ExponentialBackoff::default().max_delay(10000).with_jitter(false).delay_ms(attempt);
        let d = p.delay_ms(attempt);
        assert!(d >= 100);
        assert!(d as u64 * 5 >= base as u64 * 4 || d == 100);
        assert!(d as u64 * 5 <= base as u64 * 6);
    }
    // attempt 1: base 1500, range 300, pick 7919 % 601 = 106
    assert_eq!(p.delay_ms(1), 1500 + 106 - 300);
}

#[test]
fn test_ws_config() {
    let config = WsConfig::new("ws://localhost:8080".to_string())
        .heartbeat(15000)
        .timeout(5000);

    assert_eq!(config.url, "ws://localhost:8080");
    assert_eq!(config.heartbeat_interval_ms, 15000);
    assert_eq!(config.connect_timeout_ms, 5000);
}

#[test]
fn test_price_direction() {
    assert_eq!(PriceDirection::Up.arrow(), "\u{25B2}");
    assert_eq!(PriceDirection::Down.arrow(), "\u{25BC}");
}

#[test]
fn trade_buffer_keeps_newest_hundred() {
    let mut m = MarketState::new();
    let k = MAX_TRADES + 25;
    for i in 0..k {
        m.add_trade(trade_at(100.0 + i as f64, i as i64));
    }
    assert_eq!(m.trades.len(), MAX_TRADES);
    for (j, t) in m.trades.iter().enumerate() {
        assert_eq!(t.timestamp, (k - 1 - j) as i64);
    }
    assert_eq!(m.latest_trade().unwrap().timestamp, (k - 1) as i64);
    assert_eq!(m.last_update.trade, (k - 1) as i64);
    assert_eq!(m.recent_trades(3).len(), 3);
}

#[test]
fn batch_keeps_its_order_at_the_head() {
    let mut m = MarketState::new();
    m.add_trade(trade_at(1.0, 1));
    m.add_trades(vec![trade_at(3.0, 3), trade_at(2.0, 2)]);
    let ts: Vec<i64> = m.trades.iter().map(|t| t.timestamp).collect();
    assert_eq!(ts, vec![3, 2, 1]);
    m.add_trades(Vec::new());
    assert_eq!(m.trades.len(), 3);
}

fn candle(ts: i64, price: f64, closed: bool) -> Candle {
    let mut c = Candle::new(Symbol::default(), CandleInterval::M1, ts, px(price));
    c.is_closed = closed;
    c
}

#[test]
fn closed_candle_is_not_mutated() {
    let mut m = MarketState::new();
    m.update_candle(candle(60_000, 100.0, false));
    m.update_candle(candle(60_000, 101.0, true));
    assert_eq!(m.candles.len(), 1);
    m.update_candle(candle(120_000, 102.0, false));
    assert_eq!(m.candles.len(), 2);
    m.update_candle(candle(60_000, 999.0, false));
    assert_eq!(m.candles.len(), 3);
    assert_eq!(m.candles.candles[0].open, px(101.0));
    assert!(m.candles.candles[0].is_closed);
}

#[test]
fn candle_history_evicts_oldest() {
    let mut m = MarketState::new();
    for i in 0..(MAX_CANDLES as i64 + 5) {
        m.update_candle(candle(i * 60_000, 100.0, true));
    }
    assert_eq!(m.candles.len(), MAX_CANDLES);
    assert_eq!(m.candles.candles[0].timestamp, 5 * 60_000);
}

#[test]
fn symbol_change_clears_data() {
    let mut m = MarketState::new();
    m.add_trade(trade_at(1.0, 1));
    m.update_candle(candle(0, 1.0, false));
    m.set_symbol(Symbol::new("ETH-USD".to_string()));
    assert!(m.trades.is_empty());
    assert!(m.candles.is_empty());
    assert_eq!(m.candles.symbol.as_str(), "ETH-USD");
    m.update_candle(candle(0, 1.0, false));
    m.add_trade(trade_at(1.0, 2));
    m.set_interval(CandleInterval::H1);
    assert!(m.candles.is_empty());
    assert!(m.trades.is_empty());
    assert!(m.ticker.is_none() && m.orderbook.is_none() && m.depth.is_none());
    assert_eq!(m.candles.interval, CandleInterval::H1);
}

fn book() -> OrderBookSnapshot {
    let mut b = OrderBookSnapshot::new(Symbol::default());
    b.bids = vec![OrderBookLevel::new(px(50000.0), qty(1.0), 5)];
    b.asks = vec![OrderBookLevel::new(px(50010.0), qty(0.8), 4)];
    b.timestamp = 77;
    b
}

#[test]
fn feed_scenario_trade_book_ticker_garbage_heartbeat() {
    let mut client = WsClient::new(AppState::new());
    assert!(client.process_message(Some(WsMessage::Trade(trade_at(50005.0, 11)))));
    assert!(client.process_message(Some(WsMessage::OrderBook(book()))));
    let mut ticker = Ticker::new(Symbol::default(), px(50005.0));
    ticker.timestamp = 99;
    assert!(client.process_message(Some(WsMessage::Ticker(ticker))));
    let trades_before = client.state.market.trades.len();
    let last_update = client.state.market.last_update;
    // A frame that did not decode.
    assert!(!client.process_message(None));
    assert!(!client.process_message(Some(WsMessage::Heartbeat { timestamp: 5 })));
    let m = &client.state.market;
    assert_eq!(m.trades.len(), trades_before);
    assert_eq!(m.trades.len(), 1);
    assert_eq!(m.last_update, last_update);
    assert_eq!(m.last_update.trade, 11);
    assert_eq!(m.last_update.orderbook, 77);
    assert_eq!(m.last_update.ticker, 99);
    assert_eq!(m.spread(), Some(1_000_000_000));
    assert_eq!(m.depth.as_ref().unwrap().bid_depth.len(), 1);
    assert_eq!(m.current_price(), Some(px(50005.0)));
}

#[test]
fn computed_values() {
    let mut m = MarketState::new();
    assert_eq!(MarketComputed::new(&m).buy_ratio, (FIXED_SCALE / 2) as u128);
    m.add_trade(trade_at(100.0, 1));
    let mut s = trade_at(200.0, 2);
    s.side = TradeSide::Sell;
    m.add_trade(s);
    let c = MarketComputed::new(&m);
    assert_eq!(c.vwap, px(150.0).0 as u128);
    assert_eq!(c.buy_ratio, (FIXED_SCALE / 2) as u128);
    assert_eq!(c.price_direction, PriceDirection::Unchanged);
    assert_eq!(c.imbalance, 0);
}

#[test]
fn loop_retries_then_gives_up() {
    let policy = ConstantDelay { delay_ms: 10, max_attempts: 2 };
    let mut l = FeedLoop::new(policy);
    assert_eq!(l.step(LoopEvent::Start { stopped: false }), LoopAction::Open);
    assert_eq!(l.connection, ConnectionState::Connecting);
    assert_eq!(l.step(LoopEvent::OpenFailed), LoopAction::Wait(10));
    assert_eq!(l.connection, ConnectionState::Reconnecting);
    assert_eq!(l.last_error, Some(FeedError::ConnectFailed));
    assert_eq!(l.step(LoopEvent::TimerFired { stopped: false }), LoopAction::Open);
    assert_eq!(l.attempt, 1);
    assert_eq!(l.step(LoopEvent::OpenFailed), LoopAction::Wait(10));
    assert_eq!(l.step(LoopEvent::TimerFired { stopped: false }), LoopAction::Open);
    assert_eq!(l.step(LoopEvent::OpenFailed), LoopAction::Exit);
    assert_eq!(l.last_error, Some(FeedError::RetriesExhausted));
}

#[test]
fn loop_connects_resets_and_stops() {
    let mut l = FeedLoop::new(LinearBackoff::default());
    l.step(LoopEvent::Start { stopped: false });
    l.step(LoopEvent::OpenFailed);
    l.step(LoopEvent::TimerFired { stopped: false });
    assert_eq!(l.last_error, Some(FeedError::ConnectFailed));
    assert_eq!(l.step(LoopEvent::Opened), LoopAction::ReadMessages);
    assert_eq!(l.last_error, None);
    assert_eq!(l.attempt, 0);
    assert_eq!(l.connection, ConnectionState::Connected);
    assert_eq!(l.step(LoopEvent::Closed { stopped: false }), LoopAction::Wait(1000));
    assert_eq!(l.step(LoopEvent::TimerFired { stopped: true }), LoopAction::Exit);
    assert_eq!(l.connection, ConnectionState::Disconnected);
    let mut m = FeedLoop::new(LinearBackoff::default());
    assert_eq!(m.step(LoopEvent::Start { stopped: true }), LoopAction::Exit);
}

#[test]
fn app_state_flags() {
    let mut s = AppState::new();
    s.set_error("boom".to_string());
    assert!(s.has_error());
    s.set_connected();
    assert!(s.is_connected());
    assert!(!s.has_error());
    s.toggle_panel(Panel::Trades);
    assert!(!s.is_panel_visible(Panel::Trades));
    assert!(s.is_panel_visible(Panel::OrderBook));
}
