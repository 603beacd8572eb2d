//! The interactive state of the dashboard: which view is shown, which
//! method and tax year the reports use, sorting, selection and toggles, and
//! how each control changes it.

use vstd::prelude::*;

use crate::model::Method;
use vstd::view::View as _;
use crate::rebalance::Strategy;

verus! {

/// The dashboard's views, in tab order.
#[derive(Clone, Copy, Debug, PartialEq, Eq, Structural)]
pub enum View {
    Prices,
    Holdings,
    Valuation,
    Tax,
    Rebalance,
    Performance,
}

/// The number of views.
pub const VIEW_COUNT: usize = 6;

/// Position of a view in tab order.
pub open spec fn view_index(v: View) -> int {
    match v {
        View::Prices => 0,
        View::Holdings => 1,
        View::Valuation => 2,
        View::Tax => 3,
        View::Rebalance => 4,
        View::Performance => 5,
    }
}

/// The view at a position in tab order.
pub open spec fn view_at(i: int) -> View {
    if i == 0 {
        View::Prices
    } else if i == 1 {
        View::Holdings
    } else if i == 2 {
        View::Valuation
    } else if i == 3 {
        View::Tax
    } else if i == 4 {
        View::Rebalance
    } else {
        View::Performance
    }
}

/// The next view, wrapping from the last to the first.
pub open spec fn next_view_of(v: View) -> View {
    view_at((view_index(v) + 1) % 6)
}

/// The previous view, wrapping from the first to the last.
pub open spec fn prev_view_of(v: View) -> View {
    view_at((view_index(v) + 6 - 1) % 6)
}

/// A view's tab title.
pub open spec fn view_title(v: View) -> Seq<char> {
    match v {
        View::Prices => "Prices"@,
        View::Holdings => "Holdings"@,
        View::Valuation => "Valuation"@,
        View::Tax => "Tax"@,
        View::Rebalance => "Rebalance"@,
        View::Performance => "Performance"@,
    }
}

impl View {
    /// The view's tab title.
    pub fn title(self) -> (r: &'static str)
        ensures
            r@ == view_title(self),
    {
        match self {
            View::Prices => "Prices",
            View::Holdings => "Holdings",
            View::Valuation => "Valuation",
            View::Tax => "Tax",
            View::Rebalance => "Rebalance",
            View::Performance => "Performance",
        }
    }

    /// Position in tab order.
    pub fn index(self) -> (r: usize)
        ensures
            r == view_index(self),
            r < VIEW_COUNT,
    {
        match self {
            View::Prices => 0,
            View::Holdings => 1,
            View::Valuation => 2,
            View::Tax => 3,
            View::Rebalance => 4,
            View::Performance => 5,
        }
    }

    /// The view at a position in tab order.
    pub fn at(i: usize) -> (r: View)
        requires
            i < VIEW_COUNT,
        ensures
            r == view_at(i as int),
    {
        if i == 0 {
            View::Prices
        } else if i == 1 {
            View::Holdings
        } else if i == 2 {
            View::Valuation
        } else if i == 3 {
            View::Tax
        } else if i == 4 {
            View::Rebalance
        } else {
            View::Performance
        }
    }
}

/// The Performance view's two presentations: a value and P&L chart over
/// time, and a per-day playback with a holdings breakdown.
#[derive(Clone, Copy, Debug, PartialEq, Eq, Structural)]
pub enum PerfMode {
    Chart,
    Playback,
}

impl Default for PerfMode {
    fn default() -> (r: PerfMode)
        ensures
            r == PerfMode::Chart,
    {
        PerfMode::Chart
    }
}

/// Columns the price table sorts by, in cycling order.
#[derive(Clone, Copy, Debug, PartialEq, Eq, Structural)]
pub enum SortKey {
    Symbol,
    Price,
    Change24h,
    Value,
    Profit,
}

/// Position of a sort key in cycling order.
pub open spec fn sort_index(k: SortKey) -> int {
    match k {
        SortKey::Symbol => 0,
        SortKey::Price => 1,
        SortKey::Change24h => 2,
        SortKey::Value => 3,
        SortKey::Profit => 4,
    }
}

/// The sort key at a position in cycling order.
pub open spec fn sort_at(i: int) -> SortKey {
    if i == 0 {
        SortKey::Symbol
    } else if i == 1 {
        SortKey::Price
    } else if i == 2 {
        SortKey::Change24h
    } else if i == 3 {
        SortKey::Value
    } else {
        SortKey::Profit
    }
}

/// The next sort key, wrapping from the last to the first.
pub open spec fn next_sort_of(k: SortKey) -> SortKey {
    sort_at((sort_index(k) + 1) % 5)
}

/// How rebalance target weights are derived: from the configured targets,
/// equally, or by market capitalisation.
#[derive(Clone, Copy, Debug, PartialEq, Eq, Structural)]
pub enum TargetStrategy {
    Custom,
    Equal,
    MarketCap,
}

/// The status-bar message.
#[derive(Clone, Debug)]
pub struct Status {
    pub message: String,
}

impl Default for Status {
    fn default() -> (r: Status)
        ensures
            r.message@ == Seq::<char>::empty(),
    {
        Status { message: String::new() }
    }
}

/// The next of the four automatic methods: FIFO, LIFO, HIFO, average, and
/// back to FIFO (specific identification also goes to FIFO).
pub open spec fn next_method_of(m: Method) -> Method {
    match m {
        Method::Fifo => Method::Lifo,
        Method::Lifo => Method::Hifo,
        Method::Hifo => Method::Average,
        Method::Average => Method::Fifo,
        Method::SpecificId => Method::Fifo,
    }
}

/// The next target strategy: custom, equal, market cap, and back.
pub open spec fn next_target_of(t: TargetStrategy) -> TargetStrategy {
    match t {
        TargetStrategy::Custom => TargetStrategy::Equal,
        TargetStrategy::Equal => TargetStrategy::MarketCap,
        TargetStrategy::MarketCap => TargetStrategy::Custom,
    }
}

/// The other rebalancing strategy.
pub open spec fn other_strategy(s: Strategy) -> Strategy {
    match s {
        Strategy::Band => Strategy::Full,
        Strategy::Full => Strategy::Band,
    }
}

/// The other Performance presentation.
pub open spec fn other_perf_mode(m: PerfMode) -> PerfMode {
    match m {
        PerfMode::Chart => PerfMode::Playback,
        PerfMode::Playback => PerfMode::Chart,
    }
}

/// The short label of a method.
pub open spec fn method_text(m: Method) -> Seq<char> {
    match m {
        Method::Fifo => "FIFO"@,
        Method::Lifo => "LIFO"@,
        Method::Hifo => "HIFO"@,
        Method::Average => "AVG"@,
        Method::SpecificId => "SPEC"@,
    }
}

/// The dashboard's interactive state. `needs_recompute` is raised by the
/// controls that change what the derived reports depend on (method, tax
/// year, strategy, target strategy, prices); whoever holds the reports
/// recomputes them and lowers it.
pub struct AppState {
    pub method: Method,
    pub view: View,
    pub tax_year: i32,
    pub sort: SortKey,
    pub sort_desc: bool,
    pub selected: usize,
    pub group_by_wallet: bool,
    pub strategy: Strategy,
    pub status: Status,
    pub loading: bool,
    pub show_help: bool,
    pub should_quit: bool,
    pub seconds_to_refresh: u64,
    pub target_strategy: TargetStrategy,
    pub perf_mode: PerfMode,
    pub needs_recompute: bool,
}

impl AppState {
    /// The starting state: the configured method (FIFO in place of specific
    /// identification, which needs lot choices), the Prices view, tax year
    /// 2024, sorted by value descending, the configured strategy, custom
    /// targets, the chart presentation, and reports due for computation.
    pub fn new(default_method: Method, strategy: Strategy, refresh_seconds: u64) -> (r: AppState)
        ensures
            r.method == (if default_method == Method::SpecificId {
                Method::Fifo
            } else {
                default_method
            }),
            r.view == View::Prices,
            r.tax_year == 2024,
            r.sort == SortKey::Value,
            r.sort_desc,
            r.selected == 0,
            !r.group_by_wallet,
            r.strategy == strategy,
            r.status.message@ == Seq::<char>::empty(),
            !r.loading,
            !r.show_help,
            !r.should_quit,
            r.seconds_to_refresh == refresh_seconds,
            r.target_strategy == TargetStrategy::Custom,
            r.perf_mode == PerfMode::Chart,
            r.needs_recompute,
    {
        let method = if default_method == Method::SpecificId {
            Method::Fifo
        } else {
            default_method
        };
        AppState {
            method,
            view: View::Prices,
            tax_year: 2024,
            sort: SortKey::Value,
            sort_desc: true,
            selected: 0,
            group_by_wallet: false,
            strategy,
            status: Status::default(),
            loading: false,
            show_help: false,
            should_quit: false,
            seconds_to_refresh: refresh_seconds,
            target_strategy: TargetStrategy::Custom,
            perf_mode: PerfMode::Chart,
            needs_recompute: true,
        }
    }

    /// Shows the next view (wrapping) with the selection reset.
    pub fn next_view(&mut self)
        ensures
            *final(self) == (AppState { view: next_view_of(old(self).view), selected: 0, ..*old(self) }),
    {
        let i = (self.view.index() + 1) % VIEW_COUNT;
        self.view = View::at(i);
        self.selected = 0;
    }

    /// Shows the previous view (wrapping) with the selection reset.
    pub fn prev_view(&mut self)
        ensures
            *final(self) == (AppState { view: prev_view_of(old(self).view), selected: 0, ..*old(self) }),
    {
        let i = (self.view.index() + VIEW_COUNT - 1) % VIEW_COUNT;
        self.view = View::at(i);
        self.selected = 0;
    }

    /// Moves to the next automatic cost-basis method; reports go stale.
    pub fn cycle_method(&mut self)
        ensures
            *final(self) == (AppState {
                method: next_method_of(old(self).method),
                needs_recompute: true,
                ..*old(self)
            }),
    {
        self.method = match self.method {
            Method::Fifo => Method::Lifo,
            Method::Lifo => Method::Hifo,
            Method::Hifo => Method::Average,
            Method::Average => Method::Fifo,
            Method::SpecificId => Method::Fifo,
        };
        self.needs_recompute = true;
    }

    /// Moves the tax year by `delta`; reports go stale.
    pub fn set_year(&mut self, delta: i32)
        requires
            i32::MIN <= old(self).tax_year + delta <= i32::MAX,
        ensures
            *final(self) == year_shifted(*old(self), delta as int),
    {
        self.tax_year = self.tax_year + delta;
        self.needs_recompute = true;
    }

    /// Sorts by the next column (wrapping).
    pub fn cycle_sort(&mut self)
        ensures
            *final(self) == (AppState { sort: next_sort_of(old(self).sort), ..*old(self) }),
    {
        self.sort = match self.sort {
            SortKey::Symbol => SortKey::Price,
            SortKey::Price => SortKey::Change24h,
            SortKey::Change24h => SortKey::Value,
            SortKey::Value => SortKey::Profit,
            SortKey::Profit => SortKey::Symbol,
        };
    }

    /// Flips grouping of holdings by wallet.
    pub fn toggle_grouping(&mut self)
        ensures
            *final(self) == (AppState { group_by_wallet: !old(self).group_by_wallet, ..*old(self) }),
    {
        self.group_by_wallet = !self.group_by_wallet;
    }

    /// Switches between band and full rebalancing; reports go stale.
    pub fn toggle_strategy(&mut self)
        ensures
            *final(self) == (AppState {
                strategy: other_strategy(old(self).strategy),
                needs_recompute: true,
                ..*old(self)
            }),
    {
        self.strategy = match self.strategy {
            Strategy::Band => Strategy::Full,
            Strategy::Full => Strategy::Band,
        };
        self.needs_recompute = true;
    }

    /// Switches the target-weight strategy (custom, equal, market cap);
    /// reports go stale.
    pub fn cycle_target_strategy(&mut self)
        ensures
            *final(self) == (AppState {
                target_strategy: next_target_of(old(self).target_strategy),
                needs_recompute: true,
                ..*old(self)
            }),
    {
        self.target_strategy = match self.target_strategy {
            TargetStrategy::Custom => TargetStrategy::Equal,
            TargetStrategy::Equal => TargetStrategy::MarketCap,
            TargetStrategy::MarketCap => TargetStrategy::Custom,
        };
        self.needs_recompute = true;
    }

    /// Flips the Performance view between chart and playback.
    pub fn toggle_playback(&mut self)
        ensures
            *final(self) == (AppState { perf_mode: other_perf_mode(old(self).perf_mode), ..*old(self) }),
    {
        self.perf_mode = match self.perf_mode {
            PerfMode::Chart => PerfMode::Playback,
            PerfMode::Playback => PerfMode::Chart,
        };
    }

    /// Moves the selection down one row (saturating).
    pub fn select_next(&mut self)
        ensures
            *final(self) == (AppState {
                selected: if old(self).selected == usize::MAX {
                    usize::MAX
                } else {
                    (old(self).selected + 1) as usize
                },
                ..*old(self)
            }),
    {
        self.selected = self.selected.saturating_add(1);
    }

    /// Moves the selection up one row (stopping at the top).
    pub fn select_prev(&mut self)
        ensures
            *final(self) == (AppState {
                selected: if old(self).selected == 0 {
                    0
                } else {
                    (old(self).selected - 1) as usize
                },
                ..*old(self)
            }),
    {
        self.selected = self.selected.saturating_sub(1);
    }

    /// Shows or hides the help overlay.
    pub fn toggle_help(&mut self)
        ensures
            *final(self) == (AppState { show_help: !old(self).show_help, ..*old(self) }),
    {
        self.show_help = !self.show_help;
    }

    /// New prices arrived: loading ends and reports go stale.
    pub fn set_prices(&mut self)
        ensures
            *final(self) == (AppState { loading: false, needs_recompute: true, ..*old(self) }),
    {
        self.loading = false;
        self.needs_recompute = true;
    }

    /// Starts the countdown to the next automatic refresh (at least one
    /// second).
    pub fn start_countdown(&mut self, refresh_seconds: u64)
        ensures
            *final(self) == (AppState {
                seconds_to_refresh: if refresh_seconds == 0 {
                    1
                } else {
                    refresh_seconds
                },
                ..*old(self)
            }),
    {
        self.seconds_to_refresh = if refresh_seconds == 0 {
            1
        } else {
            refresh_seconds
        };
    }

    /// One second passed: at zero a refresh is due (loading starts and the
    /// countdown restarts); otherwise the countdown goes down by one.
    /// Returns whether to fetch prices.
    pub fn tick(&mut self, refresh_seconds: u64) -> (fetch: bool)
        ensures
            fetch == (old(self).seconds_to_refresh == 0),
            fetch ==> *final(self) == (AppState {
                loading: true,
                seconds_to_refresh: if refresh_seconds == 0 {
                    1
                } else {
                    refresh_seconds
                },
                ..*old(self)
            }),
            !fetch ==> *final(self) == (AppState {
                seconds_to_refresh: (old(self).seconds_to_refresh - 1) as u64,
                ..*old(self)
            }),
    {
        if self.seconds_to_refresh == 0 {
            self.loading = true;
            self.start_countdown(refresh_seconds);
            true
        } else {
            self.seconds_to_refresh = self.seconds_to_refresh - 1;
            false
        }
    }

    /// The active method's short label.
    pub fn method_label(&self) -> (r: &'static str)
        ensures
            r@ == method_text(self.method),
    {
        match self.method {
            Method::Fifo => "FIFO",
            Method::Lifo => "LIFO",
            Method::Hifo => "HIFO",
            Method::Average => "AVG",
            Method::SpecificId => "SPEC",
        }
    }
}

/// The state after moving the tax year by `delta`: the year moved, reports
/// marked stale, all else kept.
pub open spec fn year_shifted(s: AppState, delta: int) -> AppState {
    AppState { tax_year: (s.tax_year + delta) as i32, needs_recompute: true, ..s }
}

/// Moving the tax year by `delta` and then by `-delta` gives the year back,
/// leaving the reports marked stale, whenever both steps stay within `i32`.
pub proof fn year_shift_inverse(s: AppState, delta: i32)
    requires
        i32::MIN <= s.tax_year + delta <= i32::MAX,
        delta != i32::MIN,
    ensures
        year_shifted(year_shifted(s, delta as int), -delta).tax_year == s.tax_year,
        year_shifted(year_shifted(s, delta as int), -delta) == (AppState { needs_recompute: true, ..s }),
{
}

/// Stepping forward then back through the views returns to the start, and
/// so does stepping back then forward.
pub proof fn view_navigation_inverse(v: View)
    ensures
        prev_view_of(next_view_of(v)) == v,
        next_view_of(prev_view_of(v)) == v,
{
}

/// Six steps forward through the views return to the start.
pub proof fn view_cycle_has_six_steps(v: View)
    ensures
        next_view_of(next_view_of(next_view_of(next_view_of(next_view_of(next_view_of(v))))))
            == v,
        next_view_of(v) != v,
{
}

/// Method cycling visits the four automatic methods in turn, returns to
/// the start after four steps, and never lands on specific identification.
pub proof fn method_cycle_law(m: Method)
    ensures
        next_method_of(m) != Method::SpecificId,
        m != Method::SpecificId ==> next_method_of(
            next_method_of(next_method_of(next_method_of(m))),
        ) == m,
{
}

/// Five steps through the sort keys return to the start.
pub proof fn sort_cycle_law(k: SortKey)
    ensures
        next_sort_of(next_sort_of(next_sort_of(next_sort_of(next_sort_of(k))))) == k,
{
}

/// Three steps through the target strategies return to the start.
pub proof fn target_cycle_law(t: TargetStrategy)
    ensures
        next_target_of(next_target_of(next_target_of(t))) == t,
        next_target_of(t) != t,
{
}

/// The strategy and Performance toggles undo themselves.
pub proof fn toggles_are_involutions(s: Strategy, m: PerfMode)
    ensures
        other_strategy(other_strategy(s)) == s,
        other_perf_mode(other_perf_mode(m)) == m,
{
}

} // verus!
