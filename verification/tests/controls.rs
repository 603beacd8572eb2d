use crypto_price_tracker_v2::config::Config;
use crypto_price_tracker_v2::controls::{AppState, PerfMode, SortKey, TargetStrategy, View};
use crypto_price_tracker_v2::model::Method;
use crypto_price_tracker_v2::rebalance::Strategy;

fn state() -> AppState {
    let c = Config::example();
    AppState::new(c.default_method, c.rebalance.strategy, c.refresh_seconds)
}

#[test]
fn starts_on_prices_view_with_default_method() {
    let a = state();
    assert_eq!(a.view, View::Prices);
    assert_eq!(a.method, Method::Fifo);
    assert_eq!(a.tax_year, 2024);
    assert_eq!(a.sort, SortKey::Value);
    assert!(a.sort_desc);
    assert!(a.needs_recompute);
}

#[test]
fn specific_id_default_starts_as_fifo() {
    let a = AppState::new(Method::SpecificId, Strategy::Full, 5);
    assert_eq!(a.method, Method::Fifo);
    assert_eq!(a.strategy, Strategy::Full);
    assert_eq!(a.seconds_to_refresh, 5);
}

#[test]
fn cycle_method_walks_the_four_automatic_methods() {
    let mut a = state();
    a.cycle_method();
    assert_eq!(a.method, Method::Lifo);
    a.cycle_method();
    assert_eq!(a.method, Method::Hifo);
    a.cycle_method();
    assert_eq!(a.method, Method::Average);
    a.cycle_method();
    assert_eq!(a.method, Method::Fifo);
    assert_eq!(a.method_label(), "FIFO");
}

#[test]
fn next_and_prev_view_cycle_six_views() {
    let mut a = state();
    a.next_view();
    assert_eq!(a.view, View::Holdings);
    a.prev_view();
    assert_eq!(a.view, View::Prices);
    a.prev_view();
    assert_eq!(a.view, View::Performance);
}

#[test]
fn six_next_views_return_to_start_and_reset_selection() {
    let mut a = state();
    a.select_next();
    a.select_next();
    assert_eq!(a.selected, 2);
    for _ in 0..6 {
        a.next_view();
    }
    assert_eq!(a.view, View::Prices);
    assert_eq!(a.selected, 0);
}

#[test]
fn set_year_adjusts_tax_year() {
    let mut a = state();
    let y = a.tax_year;
    a.set_year(1);
    assert_eq!(a.tax_year, y + 1);
    a.set_year(-1);
    assert_eq!(a.tax_year, y);
}

#[test]
fn view_titles_and_indices() {
    assert_eq!(View::Prices.title(), "Prices");
    assert_eq!(View::Performance.title(), "Performance");
    assert_eq!(View::Tax.index(), 3);
    assert_eq!(View::at(4), View::Rebalance);
}

#[test]
fn sort_cycles_through_five_keys() {
    let mut a = state();
    a.cycle_sort();
    assert_eq!(a.sort, SortKey::Profit);
    a.cycle_sort();
    assert_eq!(a.sort, SortKey::Symbol);
    for _ in 0..5 {
        a.cycle_sort();
    }
    assert_eq!(a.sort, SortKey::Symbol);
}

#[test]
fn selection_saturates_at_both_ends() {
    let mut a = state();
    a.select_prev();
    assert_eq!(a.selected, 0);
    a.selected = usize::MAX;
    a.select_next();
    assert_eq!(a.selected, usize::MAX);
}

#[test]
fn toggles_flip_and_mark_reports_stale() {
    let mut a = state();
    a.needs_recompute = false;
    a.toggle_strategy();
    assert_eq!(a.strategy, Strategy::Full);
    assert!(a.needs_recompute);
    a.toggle_strategy();
    assert_eq!(a.strategy, Strategy::Band);
    a.toggle_playback();
    assert_eq!(a.perf_mode, PerfMode::Playback);
    a.toggle_playback();
    assert_eq!(a.perf_mode, PerfMode::Chart);
    a.toggle_help();
    assert!(a.show_help);
    a.toggle_grouping();
    assert!(a.group_by_wallet);
}

#[test]
fn target_strategy_cycles_custom_equal_market_cap() {
    let mut a = state();
    assert_eq!(a.target_strategy, TargetStrategy::Custom);
    a.cycle_target_strategy();
    assert_eq!(a.target_strategy, TargetStrategy::Equal);
    a.cycle_target_strategy();
    assert_eq!(a.target_strategy, TargetStrategy::MarketCap);
    a.cycle_target_strategy();
    assert_eq!(a.target_strategy, TargetStrategy::Custom);
}

#[test]
fn new_prices_end_loading() {
    let mut a = state();
    a.loading = true;
    a.needs_recompute = false;
    a.set_prices();
    assert!(!a.loading);
    assert!(a.needs_recompute);
}

#[test]
fn countdown_fetches_after_the_interval() {
    let mut a = state();
    a.start_countdown(2);
    assert_eq!(a.seconds_to_refresh, 2);
    assert!(!a.tick(2));
    assert!(!a.tick(2));
    assert_eq!(a.seconds_to_refresh, 0);
    assert!(a.tick(2));
    assert!(a.loading);
    assert_eq!(a.seconds_to_refresh, 2);
    a.start_countdown(0);
    assert_eq!(a.seconds_to_refresh, 1);
}
