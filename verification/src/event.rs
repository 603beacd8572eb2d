//! Keyboard input: keys mapped to actions, and actions applied to the
//! dashboard state.

use vstd::prelude::*;

use crate::controls::{
    next_method_of, next_sort_of, next_target_of, next_view_of, other_perf_mode, other_strategy,
    prev_view_of, AppState,
};

verus! {

/// What the user asked for.
#[derive(Clone, Copy, Debug, PartialEq, Eq, Structural)]
pub enum Action {
    Quit,
    NextView,
    PrevView,
    CycleMethod,
    CycleSort,
    ToggleGrouping,
    NextYear,
    PrevYear,
    ToggleStrategy,
    Refresh,
    Export,
    SelectNext,
    SelectPrev,
    ToggleHelp,
    CycleTargetStrategy,
    TogglePlayback,
}

/// A key press, by the key alone (modifiers play no part).
#[derive(Clone, Copy, Debug, PartialEq, Eq, Structural)]
pub enum Key {
    Char(char),
    Esc,
    Tab,
    BackTab,
    Left,
    Right,
    Up,
    Down,
    /// Any other key.
    Other,
}

/// The action bound to a key, if any.
pub open spec fn key_action(key: Key) -> Option<Action> {
    match key {
        Key::Char('q') | Key::Esc => Some(Action::Quit),
        Key::Tab | Key::Right => Some(Action::NextView),
        Key::BackTab | Key::Left => Some(Action::PrevView),
        Key::Char('m') => Some(Action::CycleMethod),
        Key::Char('s') => Some(Action::CycleSort),
        Key::Char('g') => Some(Action::ToggleGrouping),
        Key::Char(']') => Some(Action::NextYear),
        Key::Char('[') => Some(Action::PrevYear),
        Key::Char('t') => Some(Action::ToggleStrategy),
        Key::Char('r') => Some(Action::Refresh),
        Key::Char('e') => Some(Action::Export),
        Key::Down => Some(Action::SelectNext),
        Key::Up => Some(Action::SelectPrev),
        Key::Char('?') => Some(Action::ToggleHelp),
        Key::Char('w') => Some(Action::CycleTargetStrategy),
        Key::Char('p') => Some(Action::TogglePlayback),
        _ => None,
    }
}

/// Maps a key to its action: `q`/Esc quit, Tab/Right and BackTab/Left move
/// between views, `m` cycles the method, `s` the sort, `g` toggles
/// grouping, `]`/`[` step the tax year, `t` toggles the strategy, `r`
/// refreshes, `e` exports, Down/Up move the selection, `?` toggles help,
/// `w` cycles the target-weight strategy and `p` toggles the Performance
/// playback.
pub fn map_key(key: Key) -> (r: Option<Action>)
    ensures
        r == key_action(key),
{
    match key {
        Key::Char('q') | Key::Esc => Some(Action::Quit),
        Key::Tab | Key::Right => Some(Action::NextView),
        Key::BackTab | Key::Left => Some(Action::PrevView),
        Key::Char('m') => Some(Action::CycleMethod),
        Key::Char('s') => Some(Action::CycleSort),
        Key::Char('g') => Some(Action::ToggleGrouping),
        Key::Char(']') => Some(Action::NextYear),
        Key::Char('[') => Some(Action::PrevYear),
        Key::Char('t') => Some(Action::ToggleStrategy),
        Key::Char('r') => Some(Action::Refresh),
        Key::Char('e') => Some(Action::Export),
        Key::Down => Some(Action::SelectNext),
        Key::Up => Some(Action::SelectPrev),
        Key::Char('?') => Some(Action::ToggleHelp),
        Key::Char('w') => Some(Action::CycleTargetStrategy),
        Key::Char('p') => Some(Action::TogglePlayback),
        _ => None,
    }
}

/// The state after an action (the export request's status message aside,
/// which `apply` states on its own).
pub open spec fn after_action(s: AppState, a: Action) -> AppState {
    match a {
        Action::Quit => AppState { should_quit: true, ..s },
        Action::NextView => AppState { view: next_view_of(s.view), selected: 0, ..s },
        Action::PrevView => AppState { view: prev_view_of(s.view), selected: 0, ..s },
        Action::CycleMethod => AppState {
            method: next_method_of(s.method),
            needs_recompute: true,
            ..s
        },
        Action::CycleSort => AppState { sort: next_sort_of(s.sort), ..s },
        Action::ToggleGrouping => AppState { group_by_wallet: !s.group_by_wallet, ..s },
        Action::NextYear => AppState {
            tax_year: (s.tax_year + 1) as i32,
            needs_recompute: true,
            ..s
        },
        Action::PrevYear => AppState {
            tax_year: (s.tax_year - 1) as i32,
            needs_recompute: true,
            ..s
        },
        Action::ToggleStrategy => AppState {
            strategy: other_strategy(s.strategy),
            needs_recompute: true,
            ..s
        },
        Action::Refresh => AppState { loading: true, ..s },
        Action::Export => s,
        Action::SelectNext => AppState {
            selected: if s.selected == usize::MAX {
                usize::MAX
            } else {
                (s.selected + 1) as usize
            },
            ..s
        },
        Action::SelectPrev => AppState {
            selected: if s.selected == 0 {
                0
            } else {
                (s.selected - 1) as usize
            },
            ..s
        },
        Action::ToggleHelp => AppState { show_help: !s.show_help, ..s },
        Action::CycleTargetStrategy => AppState {
            target_strategy: next_target_of(s.target_strategy),
            needs_recompute: true,
            ..s
        },
        Action::TogglePlayback => AppState { perf_mode: other_perf_mode(s.perf_mode), ..s },
    }
}

/// Applies an action to the state; returns whether a price refresh was
/// requested. An export request only sets the status message.
pub fn apply(state: &mut AppState, action: Action) -> (refresh: bool)
    requires
        action == Action::NextYear ==> old(state).tax_year < i32::MAX,
        action == Action::PrevYear ==> old(state).tax_year > i32::MIN,
    ensures
        refresh == (action == Action::Refresh),
        action != Action::Export ==> *final(state) == after_action(*old(state), action),
        action == Action::Export ==> final(state).status.message@ == "export requested"@
            && *final(state) == (AppState { status: final(state).status, ..*old(state) }),
{
    match action {
        Action::Quit => state.should_quit = true,
        Action::NextView => state.next_view(),
        Action::PrevView => state.prev_view(),
        Action::CycleMethod => state.cycle_method(),
        Action::CycleSort => state.cycle_sort(),
        Action::ToggleGrouping => state.toggle_grouping(),
        Action::NextYear => state.set_year(1),
        Action::PrevYear => state.set_year(-1),
        Action::ToggleStrategy => state.toggle_strategy(),
        Action::Refresh => {
            state.loading = true;
            return true;
        },
        Action::Export => state.status.message = "export requested".to_string(),
        Action::SelectNext => state.select_next(),
        Action::SelectPrev => state.select_prev(),
        Action::ToggleHelp => state.toggle_help(),
        Action::CycleTargetStrategy => state.cycle_target_strategy(),
        Action::TogglePlayback => state.toggle_playback(),
    }
    false
}

/// Reports are marked for recomputation whenever an action changes what
/// they depend on (method, tax year, strategy, target strategy), and the
/// mark is left alone by every other action.
pub proof fn recompute_law(s: AppState, a: Action)
    ensures
        (after_action(s, a).method != s.method || after_action(s, a).tax_year != s.tax_year
            || after_action(s, a).strategy != s.strategy || after_action(s, a).target_strategy
            != s.target_strategy) ==> after_action(s, a).needs_recompute,
        (a != Action::CycleMethod && a != Action::NextYear && a != Action::PrevYear && a
            != Action::ToggleStrategy && a != Action::CycleTargetStrategy) ==> after_action(s, a).needs_recompute
            == s.needs_recompute && after_action(s, a).method == s.method && after_action(s, a).tax_year
            == s.tax_year,
{
}

/// A year step forward is undone by a step back: the tax year returns.
pub proof fn year_steps_cancel(s: AppState)
    requires
        s.tax_year < i32::MAX,
    ensures
        after_action(after_action(s, Action::NextYear), Action::PrevYear).tax_year == s.tax_year,
{
}

/// Only `r` asks for a refresh, and only `q` and Esc quit.
pub proof fn key_binding_law(key: Key)
    ensures
        key_action(key) == Some(Action::Refresh) <==> key == Key::Char('r'),
        key_action(key) == Some(Action::Quit) <==> (key == Key::Char('q') || key == Key::Esc),
{
}

} // verus!
