//! The application state, driven by keys, the mouse and replies.

use teiryo::adapter::{BarStyle, RenderHint};
use teiryo::amount::Amount;
use teiryo::app::input::{KeyCode, KeyEvent, KeyEventKind, MouseEvent, MouseEventKind, Rect};
use teiryo::app::settings::{step_interval, SettingsRow, INTERVAL_RUNGS};
use teiryo::app::state::{
    Action, App, DetailQuery, Trend, DETAIL_HSCROLL_STEP, TREND_AXIS_COLUMNS,
    TREND_KEY_STEPS_PER_RANGE,
};
use teiryo::app::tabs::{DetailTab, Overlay, Pane, TimeRange};
use teiryo::domain::{Account, QuotaUnit, QuotaWindow, ResetKind, WindowScope};
use teiryo::ids::{AccountId, WindowId};
use teiryo::protocol::wire::{
    AccountStatus, ConfigEdit, ConfigState, ConfigView, ProviderSettings, Request, WindowView,
};
use teiryo::time::{Duration, Timestamp};

fn amount(value: f64) -> Amount {
    Amount {
        bits: value.to_bits(),
    }
}

fn now() -> Timestamp {
    Timestamp::from_nanos(1_787_313_600_123_456_789)
}

fn before(ts: Timestamp, secs: i64) -> Timestamp {
    Timestamp::from_nanos(ts.nanos_since_epoch() - i128::from(secs) * 1_000_000_000)
}

fn key(c: char) -> KeyEvent {
    code(KeyCode::Char(c))
}

fn code(code: KeyCode) -> KeyEvent {
    KeyEvent {
        code,
        control: false,
        kind: KeyEventKind::Press,
    }
}

fn view(id: &str) -> WindowView {
    WindowView {
        window: QuotaWindow {
            id: WindowId::from(id),
            label: id.to_owned(),
            scope: WindowScope::AccountWide,
            reset_kind: ResetKind::Rolling(Duration {
                secs: 3600,
                nanos: 0,
            }),
            unit: QuotaUnit::Percent,
            used: amount(10.0),
            limit: None,
            reset_at: None,
        },
        hint: RenderHint {
            style: BarStyle::Percent,
            warn_threshold: amount(0.8),
            critical_threshold: amount(0.95),
            note: None,
        },
        observed_start: None,
    }
}

fn status(provider: &str, label: &str, windows: usize) -> AccountStatus {
    AccountStatus {
        account: Account {
            id: AccountId::from(format!("{provider}:{label}").as_str()),
            provider: provider.into(),
            label: label.into(),
        },
        windows: (0..windows).map(|i| view(&format!("w{i}"))).collect(),
        last_poll: None,
        last_success: None,
        poll_interval_secs: 60,
    }
}

#[test]
fn rows_flatten_accounts_and_windows() {
    let mut app = App::new();
    app.set_statuses(vec![
        status("acme", "personal", 2),
        status("openai", "p", 1),
    ]);
    let rows = app.rows();
    assert_eq!(rows.len(), 5); // 2 headers + 3 windows
    assert_eq!(rows[0].window, None);
    assert_eq!(rows[1].window, Some(0));
}

#[test]
fn first_load_selects_a_window_not_the_account_header() {
    let mut app = App::new();
    app.set_statuses(vec![status("acme", "a", 2)]);
    assert_eq!(app.selected_index(), Some(1));
    assert!(app.selected_window().is_some());

    // An account with no windows has only its header to land on.
    let mut empty = App::new();
    empty.set_statuses(vec![status("acme", "a", 0)]);
    assert_eq!(empty.selected_index(), Some(0));
}

/// The TUI normally connects before the daemon's startup poll lands, so
/// the first `Status` carries an account with no windows yet. The default
/// selection must follow the windows in when they appear rather than
/// staying stuck on the account header.
#[test]
fn default_selection_follows_windows_arriving_late() {
    let mut app = App::new();
    app.set_statuses(vec![status("acme", "a", 0)]);
    assert!(app.selected_window().is_none());

    app.set_statuses(vec![status("acme", "a", 2)]);
    assert_eq!(app.selected_index(), Some(1));
    assert!(app.selected_window().is_some());
}

/// …but once the user picks a row, refreshes must leave it alone.
#[test]
fn explicit_selection_survives_refreshes() {
    let mut app = App::new();
    app.set_statuses(vec![status("acme", "a", 3)]);
    app.handle_key(code(KeyCode::Home)); // deliberately the header row
    assert_eq!(app.selected_index(), Some(0));

    app.set_statuses(vec![status("acme", "a", 3)]);
    assert_eq!(app.selected_index(), Some(0), "refresh overrode the user");
}

#[test]
fn selection_clamps_on_shrink() {
    let mut app = App::new();
    app.set_statuses(vec![status("acme", "a", 3)]);
    app.handle_key(code(KeyCode::End));
    assert_eq!(app.selected_index(), Some(3));
    app.set_statuses(vec![status("acme", "a", 0)]);
    assert_eq!(app.selected_index(), Some(0));
}

#[test]
fn selection_follows_the_window_across_a_reorder() {
    let mut app = App::new();
    app.set_statuses(vec![status("aaa", "first", 1), status("zzz", "second", 2)]);
    // Select the second window of the "zzz" account (row index 4).
    app.handle_key(code(KeyCode::End));
    let before = app.selected_window().unwrap().1.window.id.clone();
    assert_eq!(before, WindowId::from("w1"));

    // A new account sorts ahead of both, shifting every row index down.
    app.set_statuses(vec![
        status("zzz", "second", 2),
        status("aaa", "first", 1),
        status("aaa", "extra", 4),
    ]);
    let (status, view) = app.selected_window().expect("selection survived");
    assert_eq!(status.account.id, AccountId::from("zzz:second"));
    assert_eq!(view.window.id, WindowId::from("w1"));
}

#[test]
fn shutdown_needs_confirmation() {
    let mut app = App::new();
    app.set_statuses(vec![status("acme", "a", 1)]);
    assert!(matches!(app.handle_key(key('Q')), Action::Nothing));
    assert_eq!(app.overlay, Some(Overlay::ConfirmShutdown));
    assert!(matches!(app.handle_key(key('n')), Action::Nothing));
    assert_eq!(app.overlay, None);
    app.handle_key(key('Q'));
    assert!(matches!(app.handle_key(key('y')), Action::ShutdownDaemon));
}

#[test]
fn help_overlay_closes_on_any_key() {
    let mut app = App::new();
    app.handle_key(key('?'));
    assert_eq!(app.overlay, Some(Overlay::Help));
    app.handle_key(key('j'));
    assert_eq!(app.overlay, None);
}

/// A poll the daemon refuses never lands, so nothing else would clear its
/// spinner and the account would appear to be polling forever.
#[test]
fn a_refused_poll_stops_its_spinner() {
    let mut app = App::new();
    app.set_statuses(vec![
        status("acme", "a", 1),
        status("acme", "b", 1),
        status("openai", "c", 1),
    ]);
    app.handle_key(key('R'));
    assert_eq!(app.polling.len(), 3);

    // Refusing one provider leaves the other's spinner alone.
    app.poll_refused(&"acme".to_owned(), None);
    assert_eq!(app.polling.len(), 1);
    app.poll_refused(&"openai".to_owned(), Some(&AccountId::from("openai:c")));
    assert!(app.polling.is_empty());
}

#[test]
fn poll_all_targets_each_provider_once() {
    let mut app = App::new();
    app.set_statuses(vec![
        status("acme", "a", 1),
        status("acme", "b", 1),
        status("openai", "c", 1),
    ]);
    match app.handle_key(key('R')) {
        Action::Send(reqs) => assert_eq!(reqs.len(), 2),
        _ => panic!("expected Send"),
    }
    // Every account spins until its poll lands.
    assert_eq!(app.polling.len(), 3);
    app.poll_settled(&AccountId::from("acme:a"));
    assert_eq!(app.polling.len(), 2);
}

#[test]
fn tabs_cycle_both_ways_and_reset_scroll() {
    let mut app = App::new();
    app.detail_scroll = 12;
    app.handle_key(code(KeyCode::Tab));
    assert_eq!(app.detail, DetailTab::Activity);
    assert_eq!(app.detail_scroll, 0);
    app.handle_key(code(KeyCode::Tab));
    assert_eq!(app.detail, DetailTab::Health);
    app.handle_key(code(KeyCode::Tab));
    assert_eq!(app.detail, DetailTab::Trend); // wraps
    app.handle_key(code(KeyCode::BackTab));
    assert_eq!(app.detail, DetailTab::Health);
    app.handle_key(key('2'));
    assert_eq!(app.detail, DetailTab::Activity);
}

#[test]
fn range_clamps_at_both_ends() {
    let mut app = App::new();
    assert_eq!(app.range, TimeRange::H24);
    app.handle_key(key(']'));
    assert_eq!(app.range, TimeRange::D7);
    app.handle_key(key(']'));
    assert_eq!(app.range, TimeRange::D7); // no wrap past the widest range
    for _ in 0..5 {
        app.handle_key(key('['));
    }
    assert_eq!(app.range, TimeRange::H1);
}

#[test]
fn detail_query_follows_the_active_tab() {
    let mut app = App::new();
    app.set_statuses(vec![status("acme", "a", 2)]);
    let now = now();

    // An account header row has no window to chart.
    app.handle_key(code(KeyCode::Home));
    assert!(app.detail_query(now).is_none());

    app.handle_key(key('j'));
    match app.detail_query(now) {
        Some(DetailQuery::Trend { request, .. }) => assert!(matches!(
            request,
            Request::History {
                max_points: Some(_),
                ..
            }
        )),
        _ => panic!("expected a Trend query"),
    }

    app.handle_key(key('3'));
    assert!(matches!(
        app.detail_query(now),
        Some(DetailQuery::Health(Request::Providers))
    ));
}

fn config_state() -> ConfigState {
        ConfigState {
        path: "/home/u/.config/teiryo/config.toml".into(),
        generation: 3,
        effective: ConfigView {
            poll_interval_secs: None,
            default_poll_interval_secs: 60,
            min_poll_interval_secs: 10,
            providers: vec![ProviderSettings {
                provider: "acme".into(),
                enabled: true,
                poll_interval_secs: Some(30),
                effective_poll_interval_secs: 30,
            }],
        },
        loaded_at: now(),
        warnings: vec!["unknown key `retrys` — ignored".into()],
        error: None,
    }
}

fn with_config() -> App {
    let mut app = App::new();
    app.set_statuses(vec![status("acme", "a", 1)]);
    app.handle_key(key('s'));
    app.config = Some(config_state());
    app
}

#[test]
fn settings_opens_and_fetches() {
    let mut app = App::new();
    assert!(matches!(app.handle_key(key('s')), Action::LoadConfig));
    assert_eq!(app.overlay, Some(Overlay::Settings));
    // Nothing to edit until the reply lands, and no panic for trying.
    assert!(app.settings_rows().is_empty());
    assert!(matches!(app.handle_key(key('+')), Action::Nothing));

    app.config = Some(config_state());
    assert_eq!(app.settings_rows().len(), 3); // global + enabled + interval
    assert!(matches!(app.handle_key(code(KeyCode::Esc)), Action::Nothing));
    assert_eq!(app.overlay, None);
}

/// Stepping starts from the *effective* value, so the first press changes
/// what the user is looking at rather than jumping from an unset override.
#[test]
fn adjusting_steps_along_the_rung_ladder() {
    let mut app = with_config();
    // Global row, showing the 60s default because nothing overrides it.
    match app.handle_key(key('+')) {
        Action::EditConfig(ConfigEdit::GlobalPollInterval(Some(secs))) => {
            assert_eq!(secs, 120);
        }
        other => panic!("expected a global interval edit, got {other:?}"),
    }
    match app.handle_key(key('-')) {
        Action::EditConfig(ConfigEdit::GlobalPollInterval(Some(secs))) => {
            assert_eq!(secs, 30);
        }
        other => panic!("expected a global interval edit, got {other:?}"),
    }

    // Down twice: past the enabled row onto the provider's interval.
    app.handle_key(key('j'));
    app.handle_key(key('j'));
    match app.handle_key(key('+')) {
        Action::EditConfig(ConfigEdit::ProviderPollInterval { provider, secs }) => {
            assert_eq!(provider, "acme");
            assert_eq!(secs, Some(60));
        }
        other => panic!("expected a provider interval edit, got {other:?}"),
    }
    // Backspace drops the override rather than picking a value.
    match app.handle_key(code(KeyCode::Backspace)) {
        Action::EditConfig(ConfigEdit::ProviderPollInterval { secs: None, .. }) => {}
        other => panic!("expected the override to be cleared, got {other:?}"),
    }
}

/// The floor and ceiling of the ladder hold; a keypress can never propose
/// a value the daemon would reject.
#[test]
fn the_rung_ladder_clamps_at_both_ends() {
    assert_eq!(step_interval(INTERVAL_RUNGS[0], -1), INTERVAL_RUNGS[0]);
    let top = INTERVAL_RUNGS[INTERVAL_RUNGS.len() - 1];
    assert_eq!(step_interval(top, 1), top);
    // A hand-written value between rungs moves to the neighbour in the
    // requested direction, not backwards past it.
    assert_eq!(step_interval(45, 1), 60);
    assert_eq!(step_interval(45, -1), 30);
    // And one above every rung still comes down.
    assert_eq!(step_interval(7_200, -1), top);
}

#[test]
fn toggling_enabled_flips_it() {
    let mut app = with_config();
    app.handle_key(key('j')); // onto the provider's enabled row
    match app.handle_key(code(KeyCode::Enter)) {
        Action::EditConfig(ConfigEdit::ProviderEnabled { provider, enabled }) => {
            assert_eq!(provider, "acme");
            assert!(!enabled, "toggling an enabled provider must disable it");
        }
        other => panic!("expected an enabled toggle, got {other:?}"),
    }
    // Enter is meaningless on an interval row — it has no "other" value.
    app.handle_key(key('j'));
    assert!(matches!(app.handle_key(code(KeyCode::Enter)), Action::Nothing));
}

/// A cursor left pointing past the end by an external edit must not panic
/// or silently edit the wrong row.
#[test]
fn a_shrinking_config_cannot_strand_the_cursor() {
    let mut app = with_config();
    app.handle_key(code(KeyCode::Down));
    app.handle_key(code(KeyCode::Down));
    assert_eq!(app.settings_row(), Some(SettingsRow::ProviderInterval(0)));

    let mut shrunk = config_state();
    shrunk.effective.providers.clear();
    app.config = Some(shrunk);
    assert_eq!(app.settings_row(), Some(SettingsRow::GlobalInterval));
}

#[test]
fn a_rejected_config_is_reported() {
    let mut app = with_config();
    assert_eq!(app.config_error(), None);
    let mut bad = config_state();
    bad.error = Some("`poll_interval_secs` must not be negative".into());
    app.config = Some(bad);
    assert!(app.config_error().is_some());
}

/// The point of the focus concept: one gesture, two axes. In the list
/// `j`/`k` walk the rows; in the detail pane they move along it instead,
/// and must leave the selection — and so the charted window — alone.
#[test]
fn the_scroll_keys_change_axis_with_the_cursor() {
    let mut app = App::new();
    app.set_statuses(vec![status("acme", "a", 3)]);
    app.detail = DetailTab::Activity;
    app.detail_hscroll_max = 40;

    app.handle_key(key('j'));
    assert_eq!(app.selected_index(), Some(2), "the list still scrolls");

    app.handle_key(key('l'));
    assert_eq!(app.focus, Pane::Detail);
    app.handle_key(key('j'));
    app.handle_key(key('j'));
    assert_eq!(app.detail_hscroll, 2 * DETAIL_HSCROLL_STEP as usize);
    assert_eq!(app.selected_index(), Some(2), "the selection was dragged");

    app.handle_key(key('k'));
    assert_eq!(app.detail_hscroll, DETAIL_HSCROLL_STEP as usize);
    // Esc steps back out of the pane before it collapses it.
    app.handle_key(code(KeyCode::Esc));
    assert_eq!(app.focus, Pane::List);
    assert!(app.detail_visible);
    app.handle_key(code(KeyCode::Esc));
    assert!(!app.detail_visible);
}

/// Only the renderer knows how far the content overruns the viewport, so
/// the offsets are bounded by what it last measured rather than running
/// off into empty space the user then has to scroll back through.
#[test]
fn detail_scrolling_stops_at_the_measured_edges() {
    let mut app = App::new();
    app.detail = DetailTab::Health;
    app.focus = Pane::Detail;
    app.set_detail_bounds(10, 7);
    for _ in 0..20 {
        app.handle_key(key('j'));
    }
    assert_eq!(app.detail_hscroll, 10);
    app.handle_key(key('g'));
    assert_eq!(app.detail_hscroll, 0);
    app.handle_key(code(KeyCode::End));
    assert_eq!(app.detail_hscroll, 10);

    // Paging down stops at the last row rather than scrolling the content
    // off the top into blank rows.
    for _ in 0..5 {
        app.handle_key(code(KeyCode::PageDown));
    }
    assert_eq!(app.detail_scroll, 7);
    for _ in 0..5 {
        app.handle_key(code(KeyCode::PageUp));
    }
    assert_eq!(app.detail_scroll, 0);

    // A narrower frame, or a shorter log, pulls both offsets back with it.
    app.handle_key(code(KeyCode::End));
    app.handle_key(code(KeyCode::PageDown));
    app.set_detail_bounds(4, 2);
    assert_eq!(app.detail_hscroll, 4);
    assert_eq!(app.detail_scroll, 2);
}

/// A loaded series for the selected window, with `history` of stored
/// history behind it — which is what bounds how far back it can be
/// scrolled.
fn trend_with_history(app: &App, history: i64, now: Timestamp) -> Trend {
    let (status, view) = app.selected_window().expect("a window is selected");
    Trend {
        account: status.account.id.clone(),
        window: view.window.id.clone(),
        title: "a — w0".into(),
        snapshots: Vec::new(),
        rollovers: Vec::new(),
        range: app.range,
        until: app.trend_until(now),
        earliest: Some(before(now, history)),
        fetched_at: now,
    }
}

/// Panning the chart is a horizontal scroll through time: it moves the
/// requested interval, not just the drawing.
#[test]
fn panning_the_trend_moves_the_requested_interval() {
    let mut app = App::new();
    app.set_statuses(vec![status("acme", "a", 1)]);
    app.focus = Pane::Detail;
    let now = now();
    // A week of stored history behind the default 24h range.
    app.set_trend(trend_with_history(&app, 7 * 86400, now));

    // Unpanned, `until` stays open so the chart keeps following the clock.
    match app.detail_query(now) {
        Some(DetailQuery::Trend { request, .. }) => {
            assert!(matches!(request, Request::History { until: None, .. }))
        }
        _ => panic!("expected a Trend query"),
    }

    app.handle_key(key('k')); // one step back
    app.handle_key(key('k'));
    let step = app.range.duration() / 8;
    match app.detail_query(now) {
        Some(DetailQuery::Trend { until, request, .. }) => {
            assert_eq!(until, before(now, step * 2));
            match request {
                Request::History { since, until, .. } => {
                    assert_eq!(until, Some(before(now, step * 2)));
                    assert_eq!(since, before(now, step * 2 + app.range.duration()));
                }
                other => panic!("expected History, got {other:?}"),
            }
        }
        _ => panic!("expected a Trend query"),
    }

    // Forward again, and no further: the chart cannot pan past the present.
    for _ in 0..5 {
        app.handle_key(key('j'));
    }
    assert_eq!(app.trend_pan_secs, 0);
    assert_eq!(app.trend_until(now), now);

    // Backwards it stops with the oldest stored point on the left edge,
    // rather than scrolling on into time nothing was recorded in.
    for _ in 0..50 {
        app.handle_key(key('k'));
    }
    let oldest = 7 * 86400 - app.range.duration();
    assert_eq!(app.trend_pan_secs, oldest);
    assert!(app.trend_at_oldest());

    // The pan is measured back from *now*, so a view parked at the oldest
    // point has to be re-pinned as the clock moves on, or five minutes of
    // updates would walk that point five minutes off the left edge.
    let later = before(now, -5 * 60);
    app.set_trend(trend_with_history(
        &app,
        7 * 86400 + 5 * 60,
        later,
    ));
    assert!(app.trend_at_oldest());
    assert_eq!(
        app.trend_pan_secs,
        (oldest + 5 * 60)
    );
    assert_eq!(
        before(app.trend_until(later), app.range.duration()),
        before(now, 7 * 86400),
        "the oldest point stayed on the left edge"
    );

    // `g` is the way back, and a zoom starts from the present again.
    app.handle_key(key('g'));
    assert_eq!(app.trend_pan_secs, 0);
    app.handle_key(key('k'));
    app.handle_key(key(']'));
    assert_eq!(app.trend_pan_secs, 0);
}

/// History narrower than the range has nothing to scroll through: the view
/// stays pinned to the right edge, which is also what keeps it following
/// the clock as new points land.
#[test]
fn a_short_history_pins_the_chart_to_the_present() {
    let mut app = App::new();
    app.set_statuses(vec![status("acme", "a", 1)]);
    app.focus = Pane::Detail;
    app.detail_area = Rect::new(0, 16, 80, 16);
    let now = now();
    // Two hours of history against the default 24h range.
    app.set_trend(trend_with_history(&app, 2 * 3600, now));

    for _ in 0..10 {
        app.handle_key(key('k'));
        app.handle_mouse(wheel(MouseEventKind::ScrollUp, 10, 20));
    }
    assert_eq!(app.trend_pan_secs, 0);
    assert_eq!(app.trend_until(now), now);
    assert!(
        !app.trend_at_oldest(),
        "there is nothing to be at the end of"
    );
    // The request keeps `until` open, so each reply reaches the newest
    // point instead of the one the view was pinned at.
    match app.detail_query(now) {
        Some(DetailQuery::Trend { request, .. }) => {
            assert!(matches!(request, Request::History { until: None, .. }))
        }
        _ => panic!("expected a Trend query"),
    }

    // No history at all is the same story.
    let mut trend = trend_with_history(&app, 2 * 3600, now);
    trend.earliest = None;
    app.set_trend(trend);
    app.handle_key(key('k'));
    assert_eq!(app.trend_pan_secs, 0);
}

/// A page reporting less history than the view is panned into pulls it
/// back. Otherwise the chart sits on empty time, and only a keypress in
/// the right direction gets out of it.
#[test]
fn a_shorter_history_pulls_a_panned_chart_back() {
    let mut app = App::new();
    app.set_statuses(vec![status("acme", "a", 1)]);
    app.focus = Pane::Detail;
    let now = now();
    app.set_trend(trend_with_history(&app, 7 * 86400, now));
    for _ in 0..4 {
        app.handle_key(key('k'));
    }
    assert_eq!(app.trend_pan_secs, 12 * 3600);

    app.set_trend(trend_with_history(&app, 25 * 3600, now));
    assert_eq!(app.trend_pan_secs, 1 * 3600);
}

/// A pan belongs to the window it was made on: the next window's history
/// may not reach back nearly as far, so its chart opens on the present.
#[test]
fn moving_the_selection_returns_the_chart_to_the_present() {
    let mut app = App::new();
    app.set_statuses(vec![status("acme", "a", 2)]);
    app.focus = Pane::Detail;
    let now = now();
    app.set_trend(trend_with_history(&app, 7 * 86400, now));
    app.handle_key(key('k'));
    assert!(app.trend_pan_secs > 0);

    app.focus = Pane::List;
    app.handle_key(key('j'));
    assert_eq!(app.trend_pan_secs, 0);
}

fn wheel(kind: MouseEventKind, column: u16, row: u16) -> MouseEvent {
    MouseEvent {
        kind,
        column,
        row,
    }
}

/// The wheel scrolls whatever it is pointing at, and moves the cursor
/// there — otherwise the next `j` would scroll a different pane than the
/// notch just did. Unlike `j`/`k` it also says which axis it moved along,
/// so in the text tabs it scrolls rows rather than columns.
#[test]
fn the_wheel_scrolls_the_pane_under_the_pointer() {
    let mut app = App::new();
    app.set_statuses(vec![status("acme", "a", 3)]);
    app.detail = DetailTab::Activity;
    app.set_detail_bounds(40, 20);
    app.quotas_area = Rect::new(0, 4, 80, 12);
    app.detail_area = Rect::new(0, 16, 80, 16);

    app.handle_mouse(wheel(MouseEventKind::ScrollDown, 10, 6));
    assert_eq!(app.focus, Pane::List);
    assert_eq!(app.selected_index(), Some(2));

    app.handle_mouse(wheel(MouseEventKind::ScrollDown, 10, 20));
    assert_eq!(app.focus, Pane::Detail);
    assert_eq!(app.detail_scroll, 1);
    assert_eq!(app.detail_hscroll, 0, "a vertical notch is not sideways");
    assert_eq!(app.selected_index(), Some(2), "the list must not follow");
    // A trackpad's sideways gesture is the one that moves columns.
    app.handle_mouse(wheel(MouseEventKind::ScrollRight, 10, 20));
    assert_eq!(app.detail_hscroll, 1);
    app.handle_mouse(wheel(MouseEventKind::ScrollLeft, 10, 20));
    assert_eq!(app.detail_hscroll, 0);
    // The list has no sideways axis for that gesture to move.
    app.handle_mouse(wheel(MouseEventKind::ScrollRight, 10, 6));
    assert_eq!(app.selected_index(), Some(2));

    // Outside both panes, and behind an overlay, the wheel does nothing.
    app.handle_mouse(wheel(MouseEventKind::ScrollDown, 10, 0));
    assert_eq!(app.selected_index(), Some(2));
    app.overlay = Some(Overlay::Help);
    app.handle_mouse(wheel(MouseEventKind::ScrollDown, 10, 6));
    assert_eq!(app.selected_index(), Some(2));
}

/// One notch, one line, in either direction — and never past the end of
/// the content. A wheel gesture arrives as a stream of these events, so a
/// larger step per notch is a jump across the pane.
#[test]
fn the_wheel_moves_one_line_per_notch_and_stops_at_the_ends() {
    let mut app = App::new();
    app.set_statuses(vec![status("acme", "a", 3)]);
    app.detail = DetailTab::Activity;
    app.detail_area = Rect::new(0, 16, 80, 16);
    app.quotas_area = Rect::new(0, 4, 80, 12);
    app.set_detail_bounds(40, 3);

    for expected in 1..=3 {
        app.handle_mouse(wheel(MouseEventKind::ScrollDown, 10, 20));
        assert_eq!(app.detail_scroll, expected);
    }
    for _ in 0..5 {
        app.handle_mouse(wheel(MouseEventKind::ScrollDown, 10, 20));
    }
    assert_eq!(app.detail_scroll, 3, "the log has no more rows to reveal");
    for _ in 0..10 {
        app.handle_mouse(wheel(MouseEventKind::ScrollUp, 10, 20));
    }
    assert_eq!(app.detail_scroll, 0);

    // The list moves one row per notch too, in both directions, and stops
    // on the last row. It opens on the first window, at index 1.
    for expected in [2, 3] {
        app.handle_mouse(wheel(MouseEventKind::ScrollDown, 10, 6));
        assert_eq!(app.selected_index(), Some(expected));
    }
    app.handle_mouse(wheel(MouseEventKind::ScrollDown, 10, 6));
    assert_eq!(app.selected_index(), Some(3), "one header plus three rows");
    app.handle_mouse(wheel(MouseEventKind::ScrollUp, 10, 6));
    assert_eq!(app.selected_index(), Some(2));
}

/// A notch on the chart is a nudge — about one column of the plot — where
/// a keypress is a stride of an eighth of the range.
#[test]
fn the_wheel_pans_the_chart_by_a_single_column() {
    let mut app = App::new();
    app.set_statuses(vec![status("acme", "a", 1)]);
    app.detail_area = Rect::new(0, 16, 80, 16);
    let now = now();
    app.set_trend(trend_with_history(&app, 7 * 86400, now));

    app.handle_mouse(wheel(MouseEventKind::ScrollUp, 10, 20));
    let notch = app.trend_pan_secs;
    let range = app.range.duration();
    assert_eq!(notch, range / (80 - TREND_AXIS_COLUMNS));
    assert!(notch > 0);

    app.handle_key(key('k'));
    assert_eq!(
        app.trend_pan_secs - notch,
        range / TREND_KEY_STEPS_PER_RANGE,
        "a keypress moves further than a notch"
    );

    // Forward again by exactly what the notch moved back.
    let before = app.trend_pan_secs;
    app.handle_mouse(wheel(MouseEventKind::ScrollDown, 10, 20));
    assert_eq!(before - app.trend_pan_secs, notch);
    // A sideways gesture travels the same axis: the chart has only one.
    app.handle_mouse(wheel(MouseEventKind::ScrollLeft, 10, 20));
    assert_eq!(app.trend_pan_secs, before);
}

#[test]
fn ctrl_c_quits_from_anywhere() {
    let mut app = App::new();
    app.overlay = Some(Overlay::Help);
    let ctrl_c = KeyEvent {
        code: KeyCode::Char('c'),
        control: true,
        kind: KeyEventKind::Press,
    };
    assert!(matches!(app.handle_key(ctrl_c), Action::Quit));
}

#[test]
fn no_key_leaves_the_cursor_in_a_hidden_pane() {
    let keys = [
        code(KeyCode::Esc),
        code(KeyCode::Tab),
        code(KeyCode::Enter),
        key('h'),
        key('l'),
        key('d'),
        key('1'),
        key('j'),
        key('G'),
        key('?'),
    ];
    for first in keys {
        for second in keys {
            for third in keys {
                let mut app = App::new();
                app.set_statuses(vec![status("acme", "a", 2)]);
                for pressed in [first, second, third] {
                    app.handle_key(pressed);
                    assert!(app.focus != Pane::Detail || app.detail_visible);
                }
            }
        }
    }
}
