use vstd::prelude::*;
use crate::market::MarketState;
use crate::types::ConnectionState;

verus! {

/// Colour scheme of the dashboard.
#[derive(Debug, Clone, Copy, PartialEq, Eq, Structural)]
pub enum Theme {
    Dark,
    Light,
}

impl Theme {
    pub fn toggle(&self) -> (r: Theme)
        ensures
            r == (if *self == Theme::Dark { Theme::Light } else { Theme::Dark }),
    {
        match self {
            Theme::Dark => Theme::Light,
            Theme::Light => Theme::Dark,
        }
    }

    pub fn css_class(&self) -> (r: &'static str)
        ensures
            r@ == (if *self == Theme::Dark { "theme-dark"@ } else { "theme-light"@ }),
    {
        match self {
            Theme::Dark => "theme-dark",
            Theme::Light => "theme-light",
        }
    }

    pub fn label(&self) -> (r: &'static str)
        ensures
            r@ == (if *self == Theme::Dark { "Dark"@ } else { "Light"@ }),
    {
        match self {
            Theme::Dark => "Dark",
            Theme::Light => "Light",
        }
    }
}

impl Default for Theme {
    fn default() -> (r: Self)
        ensures
            r == Theme::Dark,
    {
        Theme::Dark
    }
}

/// Which panels are shown.
#[derive(Debug, Clone, Copy, PartialEq, Eq, Structural)]
pub struct PanelVisibility {
    pub orderbook: bool,
    pub trades: bool,
    pub depth_chart: bool,
    pub candle_chart: bool,
}

impl Default for PanelVisibility {
    fn default() -> (r: Self)
        ensures
            r == (PanelVisibility { orderbook: true, trades: true, depth_chart: true, candle_chart: true }),
    {
        PanelVisibility { orderbook: true, trades: true, depth_chart: true, candle_chart: true }
    }
}

/// Display settings.
#[derive(Debug, Clone, Copy, PartialEq, Eq, Structural)]
pub struct UiState {
    pub theme: Theme,
    pub panels: PanelVisibility,
    pub compact_mode: bool,
}

impl UiState {
    pub open spec fn default_spec() -> UiState {
        UiState {
            theme: Theme::Dark,
            panels: PanelVisibility { orderbook: true, trades: true, depth_chart: true, candle_chart: true },
            compact_mode: false,
        }
    }
}

impl Default for UiState {
    fn default() -> (r: Self)
        ensures
            r == UiState::default_spec(),
    {
        UiState { theme: Theme::Dark, panels: PanelVisibility::default(), compact_mode: false }
    }
}

/// A panel of the dashboard.
#[derive(Debug, Clone, Copy, PartialEq, Eq, Structural)]
pub enum Panel {
    OrderBook,
    Trades,
    DepthChart,
    CandleChart,
}

impl Panel {
    pub fn label(&self) -> (r: &'static str)
        ensures
            r@ == (match *self {
                Panel::OrderBook => "Order Book"@,
                Panel::Trades => "Trades"@,
                Panel::DepthChart => "Depth Chart"@,
                Panel::CandleChart => "Chart"@,
            }),
    {
        match self {
            Panel::OrderBook => "Order Book",
            Panel::Trades => "Trades",
            Panel::DepthChart => "Depth Chart",
            Panel::CandleChart => "Chart",
        }
    }

    /// Every panel, in display order.
    pub fn all() -> (r: Vec<Panel>)
        ensures
            r@ == seq![Panel::OrderBook, Panel::Trades, Panel::DepthChart, Panel::CandleChart],
    {
        let r = vec![Panel::OrderBook, Panel::Trades, Panel::DepthChart, Panel::CandleChart];
        assert(r@ =~= seq![Panel::OrderBook, Panel::Trades, Panel::DepthChart, Panel::CandleChart]);
        r
    }
}

/// Whether `panel` is shown under `v`.
pub open spec fn panel_shown(v: PanelVisibility, panel: Panel) -> bool {
    match panel {
        Panel::OrderBook => v.orderbook,
        Panel::Trades => v.trades,
        Panel::DepthChart => v.depth_chart,
        Panel::CandleChart => v.candle_chart,
    }
}

/// Everything the dashboard shows: market data, connection status, error
/// message and display settings.
#[derive(Debug)]
pub struct AppState {
    pub market: MarketState,
    pub connection: ConnectionState,
    pub ui: UiState,
    pub error: Option<String>,
    pub loading: bool,
}

impl AppState {
    pub fn new() -> (r: AppState)
        ensures
            r.market.wf(),
            r.market.symbol.0@ == "BTC-USD"@,
            r.connection == ConnectionState::Disconnected,
            r.ui == UiState::default_spec(),
            r.error.is_none(),
            !r.loading,
    {
        AppState {
            market: MarketState::new(),
            connection: ConnectionState::Disconnected,
            ui: UiState::default(),
            error: None,
            loading: false,
        }
    }

    /// Marks the feed connected and clears the error.
    pub fn set_connected(&mut self)
        ensures
            *final(self) == (AppState { connection: ConnectionState::Connected, error: None, ..*old(self) }),
    {
        self.connection = ConnectionState::Connected;
        self.error = None;
    }

    pub fn set_disconnected(&mut self)
        ensures
            *final(self) == (AppState { connection: ConnectionState::Disconnected, ..*old(self) }),
    {
        self.connection = ConnectionState::Disconnected;
    }

    pub fn set_connecting(&mut self)
        ensures
            *final(self) == (AppState { connection: ConnectionState::Connecting, ..*old(self) }),
    {
        self.connection = ConnectionState::Connecting;
    }

    pub fn set_reconnecting(&mut self)
        ensures
            *final(self) == (AppState { connection: ConnectionState::Reconnecting, ..*old(self) }),
    {
        self.connection = ConnectionState::Reconnecting;
    }

    pub fn is_connected(&self) -> (r: bool)
        ensures
            r == (self.connection == ConnectionState::Connected),
    {
        self.connection.is_connected()
    }

    pub fn set_error(&mut self, msg: String)
        ensures
            *final(self) == (AppState { error: Some(msg), ..*old(self) }),
    {
        self.error = Some(msg);
    }

    pub fn clear_error(&mut self)
        ensures
            *final(self) == (AppState { error: None, ..*old(self) }),
    {
        self.error = None;
    }

    pub fn has_error(&self) -> (r: bool)
        ensures
            r == self.error.is_some(),
    {
        self.error.is_some()
    }

    pub fn toggle_theme(&mut self)
        ensures
            final(self).ui == (UiState { theme: if old(self).ui.theme == Theme::Dark { Theme::Light } else { Theme::Dark }, ..old(self).ui }),
            final(self).market == old(self).market,
            final(self).connection == old(self).connection,
            final(self).error == old(self).error,
            final(self).loading == old(self).loading,
    {
        self.ui.theme = self.ui.theme.toggle();
    }

    pub fn set_theme(&mut self, theme: Theme)
        ensures
            *final(self) == (AppState { ui: UiState { theme, ..old(self).ui }, ..*old(self) }),
    {
        self.ui.theme = theme;
    }

    /// Shows a hidden panel or hides a shown one.
    pub fn toggle_panel(&mut self, panel: Panel)
        ensures
            panel_shown(final(self).ui.panels, panel) == !panel_shown(old(self).ui.panels, panel),
            forall|p: Panel| p != panel ==> panel_shown(final(self).ui.panels, p) == panel_shown(old(self).ui.panels, p),
            final(self).ui.theme == old(self).ui.theme,
            final(self).ui.compact_mode == old(self).ui.compact_mode,
            final(self).market == old(self).market,
            final(self).connection == old(self).connection,
            final(self).error == old(self).error,
            final(self).loading == old(self).loading,
    {
        match panel {
            Panel::OrderBook => self.ui.panels.orderbook = !self.ui.panels.orderbook,
            Panel::Trades => self.ui.panels.trades = !self.ui.panels.trades,
            Panel::DepthChart => self.ui.panels.depth_chart = !self.ui.panels.depth_chart,
            Panel::CandleChart => self.ui.panels.candle_chart = !self.ui.panels.candle_chart,
        }
    }

    pub fn is_panel_visible(&self, panel: Panel) -> (r: bool)
        ensures
            r == panel_shown(self.ui.panels, panel),
    {
        match panel {
            Panel::OrderBook => self.ui.panels.orderbook,
            Panel::Trades => self.ui.panels.trades,
            Panel::DepthChart => self.ui.panels.depth_chart,
            Panel::CandleChart => self.ui.panels.candle_chart,
        }
    }

    pub fn toggle_compact_mode(&mut self)
        ensures
            *final(self) == (AppState { ui: UiState { compact_mode: !old(self).ui.compact_mode, ..old(self).ui }, ..*old(self) }),
    {
        self.ui.compact_mode = !self.ui.compact_mode;
    }

    pub fn set_loading(&mut self, loading: bool)
        ensures
            *final(self) == (AppState { loading, ..*old(self) }),
    {
        self.loading = loading;
    }

    pub fn is_loading(&self) -> (r: bool)
        ensures
            r == self.loading,
    {
        self.loading
    }
}

} // verus!
