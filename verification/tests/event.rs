use crypto_price_tracker_v2::config::Config;
use crypto_price_tracker_v2::controls::{AppState, PerfMode, TargetStrategy, View};
use crypto_price_tracker_v2::event::{apply, map_key, Action, Key};

fn state() -> AppState {
    let c = Config::example();
    AppState::new(c.default_method, c.rebalance.strategy, c.refresh_seconds)
}

#[test]
fn maps_quit_keys() {
    assert_eq!(map_key(Key::Char('q')), Some(Action::Quit));
    assert_eq!(map_key(Key::Esc), Some(Action::Quit));
}

#[test]
fn maps_navigation_and_method() {
    assert_eq!(map_key(Key::Char('m')), Some(Action::CycleMethod));
    assert_eq!(map_key(Key::Tab), Some(Action::NextView));
    assert_eq!(map_key(Key::Char('[')), Some(Action::PrevYear));
    assert_eq!(map_key(Key::Char(']')), Some(Action::NextYear));
}

#[test]
fn unmapped_key_returns_none() {
    assert_eq!(map_key(Key::Char('z')), None);
    assert_eq!(map_key(Key::Other), None);
}

#[test]
fn remaining_bindings() {
    assert_eq!(map_key(Key::Right), Some(Action::NextView));
    assert_eq!(map_key(Key::BackTab), Some(Action::PrevView));
    assert_eq!(map_key(Key::Left), Some(Action::PrevView));
    assert_eq!(map_key(Key::Char('s')), Some(Action::CycleSort));
    assert_eq!(map_key(Key::Char('g')), Some(Action::ToggleGrouping));
    assert_eq!(map_key(Key::Char('t')), Some(Action::ToggleStrategy));
    assert_eq!(map_key(Key::Char('r')), Some(Action::Refresh));
    assert_eq!(map_key(Key::Char('e')), Some(Action::Export));
    assert_eq!(map_key(Key::Down), Some(Action::SelectNext));
    assert_eq!(map_key(Key::Up), Some(Action::SelectPrev));
    assert_eq!(map_key(Key::Char('?')), Some(Action::ToggleHelp));
    assert_eq!(map_key(Key::Char('w')), Some(Action::CycleTargetStrategy));
    assert_eq!(map_key(Key::Char('p')), Some(Action::TogglePlayback));
    assert_eq!(map_key(Key::Char('Q')), None);
}

#[test]
fn only_refresh_asks_for_prices() {
    let mut a = state();
    assert!(apply(&mut a, Action::Refresh));
    assert!(a.loading);
    assert!(!apply(&mut a, Action::NextView));
    assert_eq!(a.view, View::Holdings);
    assert!(!apply(&mut a, Action::Quit));
    assert!(a.should_quit);
}

#[test]
fn export_sets_status_message() {
    let mut a = state();
    assert!(!apply(&mut a, Action::Export));
    assert_eq!(a.status.message, "export requested");
}

#[test]
fn year_actions_step_the_tax_year() {
    let mut a = state();
    apply(&mut a, Action::NextYear);
    assert_eq!(a.tax_year, 2025);
    apply(&mut a, Action::PrevYear);
    apply(&mut a, Action::PrevYear);
    assert_eq!(a.tax_year, 2023);
}

#[test]
fn target_and_playback_keys_apply() {
    let mut a = state();
    a.needs_recompute = false;
    apply(&mut a, Action::CycleTargetStrategy);
    assert_eq!(a.target_strategy, TargetStrategy::Equal);
    assert!(a.needs_recompute);
    apply(&mut a, Action::TogglePlayback);
    assert_eq!(a.perf_mode, PerfMode::Playback);
}
