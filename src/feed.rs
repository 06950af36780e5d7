use vstd::prelude::*;
use crate::app_state::AppState;
use crate::candle::Candle;
use crate::market::{with_candle, with_trade, LastUpdate, MarketState};
use crate::order::{depth_side, MarketDepth, OrderBookSnapshot};
use crate::reconnect::{ExponentialBackoff, ReconnectPolicy};
use crate::ticker::Ticker;
use crate::trade::Trade;
use crate::types::ConnectionState;

verus! {

/// Endpoint used when none is configured.
pub const DEFAULT_WS_URL: &'static str = "ws://127.0.0.1:3001/ws";

/// One decoded frame of the feed: a tagged market-data payload.
#[derive(Debug)]
pub enum WsMessage {
    Trade(Trade),
    OrderBook(OrderBookSnapshot),
    Ticker(Ticker),
    Candle(Candle),
    Depth(MarketDepth),
    Heartbeat { timestamp: i64 },
}

/// Settings of the feed client, fixed at construction.
#[derive(Debug)]
pub struct WsConfig {
    pub url: String,
    pub reconnect_policy: ExponentialBackoff,
    pub heartbeat_interval_ms: u32,
    pub connect_timeout_ms: u32,
}

impl WsConfig {
    /// The default settings for `url`.
    pub fn new(url: String) -> (r: WsConfig)
        ensures
            r.url@ == url@,
            r.reconnect_policy == ExponentialBackoff::default_spec(),
            r.heartbeat_interval_ms == 30000,
            r.connect_timeout_ms == 10000,
    {
        WsConfig {
            url,
            reconnect_policy: ExponentialBackoff::new(),
            heartbeat_interval_ms: 30000,
            connect_timeout_ms: 10000,
        }
    }

    pub fn with_policy(self, policy: ExponentialBackoff) -> (r: WsConfig)
        ensures
            r == (WsConfig { reconnect_policy: policy, ..self }),
    {
        WsConfig { reconnect_policy: policy, ..self }
    }

    pub fn heartbeat(self, interval_ms: u32) -> (r: WsConfig)
        ensures
            r == (WsConfig { heartbeat_interval_ms: interval_ms, ..self }),
    {
        WsConfig { heartbeat_interval_ms: interval_ms, ..self }
    }

    pub fn timeout(self, timeout_ms: u32) -> (r: WsConfig)
        ensures
            r == (WsConfig { connect_timeout_ms: timeout_ms, ..self }),
    {
        WsConfig { connect_timeout_ms: timeout_ms, ..self }
    }
}

impl Default for WsConfig {
    fn default() -> (r: Self)
        ensures
            r.url@ == DEFAULT_WS_URL@,
            r.reconnect_policy == ExponentialBackoff::default_spec(),
            r.heartbeat_interval_ms == 30000,
            r.connect_timeout_ms == 10000,
    {
        WsConfig::new(String::from_str(DEFAULT_WS_URL))
    }
}

/// The feed client: its settings and the state it alone writes.
#[derive(Debug)]
pub struct WsClient {
    pub config: WsConfig,
    pub state: AppState,
}

impl WsClient {
    /// A client with the default settings over `state`.
    pub fn new(state: AppState) -> (r: WsClient)
        ensures
            r.state == state,
            r.config.url@ == DEFAULT_WS_URL@,
            r.config.reconnect_policy == ExponentialBackoff::default_spec(),
    {
        WsClient { config: WsConfig::default(), state }
    }

    pub fn with_config(state: AppState, config: WsConfig) -> (r: WsClient)
        ensures
            r == (WsClient { config, state }),
    {
        WsClient { config, state }
    }

    /// Points the client at another endpoint.
    pub fn url(self, url: String) -> (r: WsClient)
        ensures
            r.state == self.state,
            r.config == (WsConfig { url, ..self.config }),
    {
        WsClient { config: WsConfig { url, ..self.config }, state: self.state }
    }

    /// Applies one decoded message to the market state. An order book with
    /// more levels than the limits allow is dropped like an undecodable frame.
    /// Returns whether the state was written.
    pub fn dispatch_message(&mut self, msg: WsMessage) -> (applied: bool)
        requires
            old(self).state.market.wf(),
        ensures
            final(self).state.market.wf(),
            final(self).config == old(self).config,
            final(self).state == (AppState { market: final(self).state.market, ..old(self).state }),
            applied ==> dispatched(old(self).state.market, msg, final(self).state.market),
            !applied ==> final(self).state.market == old(self).state.market,
            applied == (match msg {
                WsMessage::Heartbeat { .. } => false,
                WsMessage::OrderBook(b) => b.within_limits_spec(),
                _ => true,
            }),
    {
        match msg {
            WsMessage::Trade(trade) => {
                self.state.market.add_trade(trade);
                true
            },
            WsMessage::OrderBook(book) => {
                if book.within_limits() {
                    self.state.market.update_orderbook(book);
                    true
                } else {
                    false
                }
            },
            WsMessage::Ticker(ticker) => {
                self.state.market.update_ticker(ticker);
                true
            },
            WsMessage::Candle(candle) => {
                self.state.market.update_candle(candle);
                true
            },
            WsMessage::Depth(depth) => {
                self.state.market.depth = Some(depth);
                true
            },
            WsMessage::Heartbeat { timestamp: _ } => false,
        }
    }

    /// Handles one inbound frame after decoding: `None` stands for a frame
    /// that did not decode, which leaves the state as it is.
    pub fn process_message(&mut self, decoded: Option<WsMessage>) -> (applied: bool)
        requires
            old(self).state.market.wf(),
        ensures
            final(self).state.market.wf(),
            final(self).config == old(self).config,
            final(self).state == (AppState { market: final(self).state.market, ..old(self).state }),
            decoded.is_none() ==> !applied,
            decoded.is_some() ==> applied == (match decoded.unwrap() {
                WsMessage::Heartbeat { .. } => false,
                WsMessage::OrderBook(b) => b.within_limits_spec(),
                _ => true,
            }),
            applied ==> dispatched(old(self).state.market, decoded.unwrap(), final(self).state.market),
            !applied ==> final(self).state.market == old(self).state.market,
    {
        match decoded {
            Some(msg) => self.dispatch_message(msg),
            None => false,
        }
    }
}

/// `after` is `before` with `msg` applied by its store operation.
pub open spec fn dispatched(before: MarketState, msg: WsMessage, after: MarketState) -> bool {
    match msg {
        WsMessage::Trade(t) => {
            &&& after.trades@ == with_trade(before.trades@, t)
            &&& after.last_update == (LastUpdate { trade: t.timestamp, ..before.last_update })
            &&& after.same_but_trades(&before)
        },
        WsMessage::OrderBook(b) => {
            &&& after.orderbook == Some(b)
            &&& after.depth.is_some()
            &&& after.depth.unwrap().symbol == b.symbol
            &&& after.depth.unwrap().bid_depth@ == depth_side(b.bids@)
            &&& after.depth.unwrap().ask_depth@ == depth_side(b.asks@)
            &&& after.last_update == (LastUpdate { orderbook: b.timestamp, ..before.last_update })
            &&& after.same_but_book(&before)
        },
        WsMessage::Ticker(t) => {
            &&& after.ticker == Some(t)
            &&& after.last_update == (LastUpdate { ticker: t.timestamp, ..before.last_update })
            &&& after.same_but_ticker(&before)
            &&& after.trades@ == before.trades@
        },
        WsMessage::Candle(c) => {
            &&& after.candles.candles@ == with_candle(before.candles.candles@, c)
            &&& after.candles.symbol == before.candles.symbol
            &&& after.candles.interval == before.candles.interval
            &&& after.last_update == (LastUpdate { candle: c.timestamp, ..before.last_update })
            &&& after.symbol == before.symbol
            &&& after.ticker == before.ticker
            &&& after.orderbook == before.orderbook
            &&& after.depth == before.depth
            &&& after.trades@ == before.trades@
            &&& after.interval == before.interval
        },
        WsMessage::Depth(d) => after == (MarketState { depth: Some(d), ..before }),
        WsMessage::Heartbeat { .. } => after == before,
    }
}

/// Why the loop reported an error.
#[derive(Debug, Clone, Copy, PartialEq, Eq, Structural)]
pub enum FeedError {
    /// Opening the transport failed.
    ConnectFailed,
    /// The policy allows no further attempt; the loop has ended.
    RetriesExhausted,
}

/// What the connection loop learned since its last decision.
#[derive(Debug, Clone, Copy, PartialEq, Eq, Structural)]
pub enum LoopEvent {
    /// Top of the loop, with the state of the stop signal.
    Start { stopped: bool },
    /// The transport opened.
    Opened,
    /// The transport failed to open.
    OpenFailed,
    /// The read loop ended (stream end or error), with the stop signal.
    Closed { stopped: bool },
    /// The reconnection delay passed, with the stop signal.
    TimerFired { stopped: bool },
}

/// What the connection loop does next.
#[derive(Debug, Clone, Copy, PartialEq, Eq, Structural)]
pub enum LoopAction {
    /// Open the transport to the configured endpoint.
    Open,
    /// Read and process frames until the stream ends or stop is signalled.
    ReadMessages,
    /// Sleep for this many milliseconds, then report `TimerFired`.
    Wait(u32),
    /// Leave the loop.
    Exit,
}

/// The decisions of the reconnecting connection loop.
#[derive(Debug)]
pub struct FeedLoop<P: ReconnectPolicy> {
    pub policy: P,
    /// Zero-based count of failed attempts since the last connection.
    pub attempt: u32,
    pub connection: ConnectionState,
    pub last_error: Option<FeedError>,
}

impl<P: ReconnectPolicy> FeedLoop<P> {
    pub fn new(policy: P) -> (r: FeedLoop<P>)
        ensures
            r.policy == policy,
            r.attempt == 0,
            r.connection == ConnectionState::Disconnected,
            r.last_error.is_none(),
    {
        FeedLoop {
            policy,
            attempt: 0,
            connection: ConnectionState::Disconnected,
            last_error: None,
        }
    }

    /// Decides whether to wait and retry or to give up.
    fn retry_or_stop(&mut self) -> (a: LoopAction)
        ensures
            final(self).policy == old(self).policy,
            final(self).attempt == old(self).attempt,
            old(self).policy.attempt_limit() == 0 || old(self).attempt < old(self).policy.attempt_limit() ==> {
                &&& a == LoopAction::Wait(old(self).policy.delay_spec(old(self).attempt))
                &&& final(self).connection == ConnectionState::Reconnecting
                &&& final(self).last_error == old(self).last_error
            },
            !(old(self).policy.attempt_limit() == 0 || old(self).attempt < old(self).policy.attempt_limit()) ==> {
                &&& a == LoopAction::Exit
                &&& final(self).connection == old(self).connection
                &&& final(self).last_error == Some(FeedError::RetriesExhausted)
            },
    {
        if !self.policy.should_reconnect(self.attempt) {
            self.last_error = Some(FeedError::RetriesExhausted);
            return LoopAction::Exit;
        }
        let delay = self.policy.delay_ms(self.attempt);
        self.connection = ConnectionState::Reconnecting;
        LoopAction::Wait(delay)
    }

    /// `Start` or `TimerFired`: stop if signalled, else open the transport.
    fn begin_attempt(&mut self, stopped: bool) -> (a: LoopAction)
        ensures
            final(self).policy == old(self).policy,
            final(self).attempt == old(self).attempt,
            final(self).last_error == old(self).last_error,
            stopped ==> a == LoopAction::Exit && final(self).connection == ConnectionState::Disconnected,
            !stopped ==> a == LoopAction::Open && final(self).connection == ConnectionState::Connecting,
    {
        if stopped {
            self.connection = ConnectionState::Disconnected;
            LoopAction::Exit
        } else {
            self.connection = ConnectionState::Connecting;
            LoopAction::Open
        }
    }

    /// One decision of the loop.
    pub fn step(&mut self, event: LoopEvent) -> (a: LoopAction)
        ensures
            match event {
                LoopEvent::Start { stopped } => {
                    &&& final(self).policy == old(self).policy
                    &&& final(self).attempt == old(self).attempt
                    &&& final(self).last_error == old(self).last_error
                    &&& stopped ==> a == LoopAction::Exit && final(self).connection == ConnectionState::Disconnected
                    &&& !stopped ==> a == LoopAction::Open && final(self).connection == ConnectionState::Connecting
                },
                LoopEvent::TimerFired { stopped } => {
                    &&& final(self).policy == old(self).policy
                    &&& final(self).attempt == (if old(self).attempt == u32::MAX { u32::MAX } else { (old(self).attempt + 1) as u32 })
                    &&& final(self).last_error == old(self).last_error
                    &&& stopped ==> a == LoopAction::Exit && final(self).connection == ConnectionState::Disconnected
                    &&& !stopped ==> a == LoopAction::Open && final(self).connection == ConnectionState::Connecting
                },
                LoopEvent::Opened => {
                    &&& a == LoopAction::ReadMessages
                    &&& final(self).attempt == 0
                    &&& final(self).connection == ConnectionState::Connected
                    &&& final(self).last_error.is_none()
                    &&& final(self).policy.attempt_limit() == old(self).policy.attempt_limit()
                },
                LoopEvent::OpenFailed => {
                    &&& final(self).policy == old(self).policy
                    &&& final(self).attempt == old(self).attempt
                    &&& (old(self).policy.attempt_limit() == 0 || old(self).attempt < old(self).policy.attempt_limit()) ==> {
                        &&& a == LoopAction::Wait(old(self).policy.delay_spec(old(self).attempt))
                        &&& final(self).connection == ConnectionState::Reconnecting
                        &&& final(self).last_error == Some(FeedError::ConnectFailed)
                    }
                    &&& !(old(self).policy.attempt_limit() == 0 || old(self).attempt < old(self).policy.attempt_limit()) ==> {
                        &&& a == LoopAction::Exit
                        &&& final(self).connection == old(self).connection
                        &&& final(self).last_error == Some(FeedError::RetriesExhausted)
                    }
                },
                LoopEvent::Closed { stopped } => {
                    &&& final(self).policy == old(self).policy
                    &&& final(self).attempt == old(self).attempt
                    &&& stopped ==> {
                        &&& a == LoopAction::Exit
                        &&& final(self).connection == ConnectionState::Disconnected
                        &&& final(self).last_error == old(self).last_error
                    }
                    &&& !stopped && (old(self).policy.attempt_limit() == 0 || old(self).attempt < old(self).policy.attempt_limit()) ==> {
                        &&& a == LoopAction::Wait(old(self).policy.delay_spec(old(self).attempt))
                        &&& final(self).connection == ConnectionState::Reconnecting
                        &&& final(self).last_error == old(self).last_error
                    }
                    &&& !stopped && !(old(self).policy.attempt_limit() == 0 || old(self).attempt < old(self).policy.attempt_limit()) ==> {
                        &&& a == LoopAction::Exit
                        &&& final(self).connection == ConnectionState::Disconnected
                        &&& final(self).last_error == Some(FeedError::RetriesExhausted)
                    }
                },
            },
    {
        match event {
            LoopEvent::Start { stopped } => self.begin_attempt(stopped),
            LoopEvent::TimerFired { stopped } => {
                self.attempt = if self.attempt == u32::MAX {
                    u32::MAX
                } else {
                    self.attempt + 1
                };
                self.begin_attempt(stopped)
            },
            LoopEvent::Opened => {
                self.connection = ConnectionState::Connected;
                self.last_error = None;
                self.policy.reset();
                self.attempt = 0;
                LoopAction::ReadMessages
            },
            LoopEvent::OpenFailed => {
                self.last_error = Some(FeedError::ConnectFailed);
                self.retry_or_stop()
            },
            LoopEvent::Closed { stopped } => {
                self.connection = ConnectionState::Disconnected;
                if stopped {
                    LoopAction::Exit
                } else {
                    self.retry_or_stop()
                }
            },
        }
    }
}

} // verus!
