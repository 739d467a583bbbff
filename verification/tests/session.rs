//! The event loop's plans, and what it makes of the daemon's replies.

use teiryo::adapter::{BarStyle, RenderHint};
use teiryo::amount::Amount;
use teiryo::app::input::{KeyCode, KeyEvent, KeyEventKind, MouseEvent, MouseEventKind, Rect};
use teiryo::app::state::{Action, App, DetailQuery};
use teiryo::app::tabs::{DetailTab, Pane};
use teiryo::client::{ClientError, NetEvent};
use teiryo::domain::{
    Account, PollEvent, PollOutcome, PollTrigger, QuotaSnapshot, QuotaUnit, QuotaWindow, ResetKind,
    WindowScope,
};
use teiryo::error::ErrorKind;
use teiryo::ids::{AccountId, PollId, WindowId};
use teiryo::protocol::wire::{
    AccountStatus, ConfigEdit, ConfigState, ConfigView, HistoryPage, ProviderHealth, Request,
    Response, WindowView,
};
use teiryo::session::{error_kind_text, Fetch, Step};
use teiryo::time::{Duration, Timestamp};
use teiryo::ui::formats::Printed;
use teiryo::ui::header::{Figures, Rated};
use teiryo::ui::layout::{centered, detail_height, header_halves, panes};
use teiryo::ui::listing::{
    history_caption, list_account, list_poll, list_provider, list_window, listing, ratio_color,
    status_line, usage_text_snapshot,
};
use teiryo::ui::overlay::box_height;
use teiryo::ui::spans::Line;
use teiryo::ui::theme;

const SEC: i128 = 1_000_000_000;

fn now() -> Timestamp {
    Timestamp::from_nanos(1_787_313_600 * SEC)
}

fn ago(secs: i128) -> Timestamp {
    Timestamp::from_nanos(now().nanos_since_epoch() - secs * SEC)
}

fn amount(value: f64) -> Amount {
    Amount {
        bits: value.to_bits(),
    }
}

fn window(id: &str) -> QuotaWindow {
    QuotaWindow {
        id: WindowId::from(id),
        label: id.to_owned(),
        scope: WindowScope::AccountWide,
        reset_kind: ResetKind::Rolling(Duration {
            secs: 3600,
            nanos: 0,
        }),
        unit: QuotaUnit::Percent,
        used: amount(10.0),
        limit: Some(amount(100.0)),
        reset_at: None,
    }
}

fn status(label: &str, windows: usize) -> AccountStatus {
    AccountStatus {
        account: Account {
            id: AccountId(format!("acme:{label}")),
            provider: "acme".to_owned(),
            label: label.to_owned(),
        },
        windows: (0..windows)
            .map(|i| WindowView {
                window: window(&format!("w{i}")),
                hint: RenderHint {
                    style: BarStyle::Percent,
                    warn_threshold: amount(0.8),
                    critical_threshold: amount(0.95),
                    note: None,
                },
                observed_start: None,
            })
            .collect(),
        last_poll: None,
        last_success: None,
        poll_interval_secs: 60,
    }
}

fn poll(account: &str) -> PollEvent {
    PollEvent {
        id: PollId(7),
        ts: ago(5),
        provider: "acme".to_owned(),
        account: AccountId::from(account),
        trigger: PollTrigger::Scheduled,
        outcome: PollOutcome::Success { windows: vec![] },
        latency_ms: 12,
    }
}

fn config(generation: u64) -> ConfigState {
    ConfigState {
        path: "/c.toml".to_owned(),
        generation,
        effective: ConfigView {
            poll_interval_secs: None,
            default_poll_interval_secs: 60,
            min_poll_interval_secs: 10,
            providers: vec![],
        },
        loaded_at: now(),
        warnings: vec![],
        error: None,
    }
}

fn loaded() -> App {
    let mut app = App::new();
    app.take_status(Ok(Response::Status(vec![status("a", 1), status("b", 1)])), "");
    app
}

fn reading(window: &str, secs_ago: i128) -> QuotaSnapshot {
    QuotaSnapshot {
        poll_id: PollId(1),
        ts: ago(secs_ago),
        window: WindowId::from(window),
        label: window.to_owned(),
        unit: QuotaUnit::Percent,
        used: amount(3.0),
        limit: Some(amount(100.0)),
        reset_at: None,
    }
}

fn page(snapshots: Vec<QuotaSnapshot>) -> HistoryPage {
    HistoryPage {
        snapshots,
        rollovers: vec![],
        earliest: Some(ago(86_400 * 3)),
    }
}

fn press(c: char) -> KeyEvent {
    KeyEvent {
        code: KeyCode::Char(c),
        control: false,
        kind: KeyEventKind::Press,
    }
}

#[test]
fn every_action_has_its_step() {
    let mut app = loaded();
    app.error = Some("old".to_owned());
    assert_eq!(app.perform(Action::Nothing), Step::Fetch(vec![]));
    assert_eq!(app.perform(Action::Quit), Step::Stop);
    assert_eq!(
        app.perform(Action::ReloadDetail),
        Step::Fetch(vec![Fetch::Detail])
    );
    assert_eq!(
        app.perform(Action::LoadConfig),
        Step::Fetch(vec![Fetch::Config])
    );
    assert_eq!(app.perform(Action::ShutdownDaemon), Step::Shutdown);
    assert!(app.error.is_some(), "none of those touches the error");

    assert_eq!(
        app.perform(Action::EditConfig(ConfigEdit::GlobalPollInterval(None))),
        Step::Edit(ConfigEdit::GlobalPollInterval(None))
    );
    assert_eq!(app.error, None, "an edit starts with a clean line");
    app.error = Some("old".to_owned());
    assert_eq!(
        app.perform(Action::Send(vec![Request::Providers])),
        Step::Send(vec![Request::Providers])
    );
    assert_eq!(app.error, None, "and so does a request");
}

#[test]
fn keys_and_the_wheel_go_through_the_same_plans() {
    let mut app = loaded();
    assert_eq!(app.on_key(press('q')), Step::Stop);
    assert_eq!(
        app.on_key(press('s')),
        Step::Fetch(vec![Fetch::Config])
    );
    app.overlay = None;
    app.quotas_area = Rect::new(0, 0, 80, 10);
    let step = app.on_mouse(MouseEvent {
        kind: MouseEventKind::ScrollDown,
        column: 3,
        row: 3,
    });
    assert_eq!(step, Step::Fetch(vec![Fetch::Detail]));
}

#[test]
fn an_update_refreshes_everything_and_settles_its_poll() {
    let mut app = loaded();
    app.disconnected = true;
    app.on_key(press('R'));
    assert_eq!(app.polling.len(), 2);
    let step = app.on_net_event(NetEvent::Update(poll("acme:a")));
    assert_eq!(
        step,
        Step::Fetch(vec![Fetch::Status, Fetch::Recent, Fetch::Detail])
    );
    assert_eq!(app.polling.len(), 1);
    assert_eq!(app.last_update, Some(ago(5)));
    assert!(!app.disconnected);
}

#[test]
fn a_config_reload_refetches_the_cadences() {
    let mut app = loaded();
    assert_eq!(app.config_generation(), 0);
    let step = app.on_net_event(NetEvent::Config(Box::new(config(4))));
    assert_eq!(step, Step::Fetch(vec![Fetch::Status, Fetch::Recent]));
    assert_eq!(app.config_generation(), 4);
}

#[test]
fn a_lost_connection_is_retried_on_every_tick() {
    let mut app = loaded();
    assert_eq!(app.on_tick(), Step::Fetch(vec![]));
    assert_eq!(app.spinner, 1);
    assert_eq!(
        app.on_net_event(NetEvent::Disconnected("gone".to_owned())),
        Step::Fetch(vec![])
    );
    assert_eq!(app.error.as_deref(), Some("gone"));
    app.spinner = usize::MAX;
    assert_eq!(app.on_tick(), Step::Reconnect);
    assert_eq!(app.spinner, 0, "the counter wraps");
    assert_eq!(
        app.on_reconnected(),
        Step::Fetch(vec![
            Fetch::Status,
            Fetch::Recent,
            Fetch::Detail,
            Fetch::Config,
            Fetch::UpdateLoop,
        ])
    );
    assert!(!app.disconnected && app.error.is_none());
}

#[test]
fn a_reply_of_the_wrong_kind_is_said_in_the_status_line() {
    let mut app = loaded();
    app.take_status(Ok(Response::Ack), "Ack");
    assert_eq!(
        app.error.as_deref(),
        Some("unexpected daemon reply: Ack")
    );
    app.take_status(
        Ok(Response::Failed(
            ErrorKind::BadRequest,
            "no such thing".to_owned(),
        )),
        "",
    );
    assert_eq!(app.error.as_deref(), Some("bad request: no such thing"));
    assert!(!app.disconnected);
    app.take_status(Err(ClientError::Closed), "");
    assert_eq!(
        app.error.as_deref(),
        Some("daemon closed the connection")
    );
    assert!(app.disconnected);
    assert_eq!(app.statuses.len(), 2, "what was loaded stays");
}

#[test]
fn error_kinds_are_named() {
    assert_eq!(error_kind_text(ErrorKind::UnknownProvider), "unknown provider");
    assert_eq!(error_kind_text(ErrorKind::UnknownAccount), "unknown account");
    assert_eq!(error_kind_text(ErrorKind::BadRequest), "bad request");
    assert_eq!(error_kind_text(ErrorKind::Storage), "storage error");
    assert_eq!(error_kind_text(ErrorKind::Internal), "daemon error");
}

#[test]
fn recent_history_is_asked_for_account_by_account() {
    let mut app = loaded();
    let requests = app.recent_requests(now());
    assert_eq!(requests.len(), 2);
    assert_eq!(requests[1].0, AccountId::from("acme:b"));
    assert_eq!(
        requests[0].1,
        Request::History {
            account: AccountId::from("acme:a"),
            window: None,
            since: ago(12 * 3600),
            until: None,
            max_points: Some(512),
        }
    );

    let a = AccountId::from("acme:a");
    let b = AccountId::from("acme:b");
    let w0 = WindowId::from("w0");
    let both = page(vec![reading("w0", 60), reading("w1", 30)]);
    assert!(app.take_recent(&a, Ok(Response::History(both)), ""));
    assert_eq!(app.recent_points(&a, &w0).len(), 1);
    assert!(app.recent_points(&b, &w0).is_empty());
    // A second page replaces the first, and only for its account.
    assert!(app.take_recent(&b, Ok(Response::History(page(vec![reading("w0", 9)]))), ""));
    assert!(app.take_recent(&a, Ok(Response::History(page(vec![]))), ""));
    assert!(app.recent_points(&a, &w0).is_empty());
    assert_eq!(app.recent_points(&b, &w0).len(), 1);
    assert!(!app.take_recent(&a, Err(ClientError::Closed), ""));
    assert!(app.disconnected);
}

#[test]
fn the_detail_pane_takes_the_reply_its_tab_asked_for() {
    let mut app = loaded();
    let query = app.detail_query(now()).expect("a window is selected");
    assert!(matches!(query, DetailQuery::Trend { .. }));
    let loaded = page(vec![reading("w0", 60), reading("w0", 30)]);
    app.take_detail(query, Ok(Response::History(loaded)), "", now());
    let trend = app.charted_trend().expect("a series");
    assert_eq!(trend.snapshots.len(), 2);
    assert_eq!(trend.fetched_at, now());
    app.clear_trend();
    assert!(app.charted_trend().is_none());

    app.detail = DetailTab::Activity;
    let query = app.detail_query(now()).expect("a query");
    app.take_detail(query, Ok(Response::RecentPolls(vec![poll("acme:a")])), "", now());
    assert_eq!(app.activity.len(), 1);

    app.detail = DetailTab::Health;
    let query = app.detail_query(now()).expect("a query");
    app.take_detail(query, Ok(Response::RecentPolls(vec![])), "RecentPolls([])", now());
    assert_eq!(
        app.error.as_deref(),
        Some("unexpected daemon reply: RecentPolls([])")
    );
    let query = app.detail_query(now()).expect("a query");
    let health = ProviderHealth {
        provider: "acme".to_owned(),
        accounts: vec![],
        consecutive_failures: 0,
        last_error: None,
    };
    app.take_detail(query, Ok(Response::Providers(vec![health])), "", now());
    assert_eq!(app.health.len(), 1);
}

#[test]
fn settings_come_from_the_reply() {
    let mut app = loaded();
    assert!(app.take_config(Ok(Response::Config(config(3))), ""));
    assert_eq!(app.config_generation(), 3);
    let refused = Response::Failed(ErrorKind::BadRequest, "at least 10".to_owned());
    assert!(!app.take_config(Ok(refused), ""));
    assert_eq!(app.config_generation(), 3);
    assert_eq!(app.error.as_deref(), Some("bad request: at least 10"));
}

#[test]
fn a_refused_request_stops_the_spinners_it_started() {
    let mut app = loaded();
    app.on_key(press('R'));
    let request = Request::PollNow {
        provider: "acme".to_owned(),
        account: Some(AccountId::from("acme:b")),
    };
    app.take_sent(&request, Ok(Response::Ack));
    assert_eq!(app.polling.len(), 2);
    let refused = Response::Failed(ErrorKind::UnknownAccount, "acme:b".to_owned());
    app.take_sent(&request, Ok(refused));
    assert_eq!(app.polling.len(), 1);
    assert_eq!(app.error.as_deref(), Some("unknown account: acme:b"));
    app.take_sent(&request, Err(ClientError::Io("broken pipe".to_owned())));
    assert_eq!(app.polling.len(), 1);
    assert!(app.disconnected);
}

// ---------------------------------------------------------------------------
// Where things go
// ---------------------------------------------------------------------------

#[test]
fn the_panes_share_the_screen() {
    assert_eq!(detail_height(true, 25), 0, "too short for a detail pane");
    assert_eq!(detail_height(true, 26), 13);
    assert_eq!(detail_height(true, 60), 20);
    assert_eq!(detail_height(true, 200), 22);
    assert_eq!(detail_height(false, 200), 0);

    let screen = Rect::new(0, 0, 100, 40);
    let laid = panes(screen, 13);
    assert_eq!(laid.header, Rect::new(0, 0, 100, 4));
    assert_eq!(laid.quotas, Rect::new(0, 4, 100, 22));
    assert_eq!(laid.detail, Rect::new(0, 26, 100, 13));
    assert_eq!(laid.keys, Rect::new(0, 39, 100, 1));

    let (left, right) = header_halves(Rect::new(1, 1, 98, 2));
    assert_eq!(left, Rect::new(1, 1, 54, 2));
    assert_eq!(right, Rect::new(55, 1, 44, 2));
}

#[test]
fn panes_follow_one_another_whatever_the_height() {
    for height in (0..=60).chain([255, 1_000, 32_768, 65_000]) {
        for detail in (0..=22).chain([300, 65_535]) {
            for top in [0, 3, 500] {
                let area = Rect::new(2, top, 70, height);
                let laid = panes(area, detail);
                let all = [laid.header, laid.quotas, laid.detail, laid.keys];
                let mut next = top;
                for pane in all {
                    assert_eq!((pane.x, pane.y, pane.width), (2, next, 70), "{laid:?}");
                    next += pane.height;
                }
                assert!(next <= top + height, "{laid:?}");
                if u32::from(detail) + 9 <= u32::from(height) {
                    let rows = all.map(|pane| pane.height);
                    assert_eq!(rows, [4, height - 5 - detail, detail, 1]);
                }
            }
        }
    }
}

#[test]
fn the_header_is_parted_at_the_nearest_column() {
    for width in (0..=400).chain([9_999, 32_768, 65_000]) {
        for x in [0, 1, 535] {
            let (left, right) = header_halves(Rect::new(x, 0, width, 2));
            let part = ((55 * u32::from(width) + 50) / 100) as u16;
            assert_eq!(left, Rect::new(x, 0, part, 2));
            assert_eq!(right, Rect::new(x + part, 0, width - part, 2));
        }
    }
}

/// Where a box asked to be `asked` cells long begins and how long it is, in
/// `size` cells from `start`.
fn in_the_middle(start: u16, size: u16, asked: u16) -> (u16, u16) {
    let len = asked.min(size);
    let room = u32::from(size - len);
    (start + room.div_ceil(2) as u16, len)
}

#[test]
fn an_odd_cell_goes_before_a_centered_box() {
    let screen = Rect::new(0, 0, 5, 8);
    assert_eq!(centered(screen, 2, 3), Rect::new(2, 3, 2, 3));
    let sizes = (0..=40).chain([79, 80, 255, 1_000, 9_999, 32_767, 65_534]);
    for size in sizes {
        for asked in (0..=42).chain([77, 78, 254, 255, 999, 5_000, 32_766, 65_535]) {
            for start in [0, 1, 7, 300, 65_535] {
                let start = start.min(u16::MAX - size);
                let area = Rect::new(start, 0, size, 9);
                let (x, width) = in_the_middle(start, size, asked);
                assert_eq!(centered(area, asked, 4), Rect::new(x, 3, width, 4));
                let area = Rect::new(0, start, 9, size);
                let (y, height) = in_the_middle(start, size, asked);
                assert_eq!(centered(area, 4, asked), Rect::new(3, y, 4, height));
            }
        }
    }
}

#[test]
fn a_box_is_centered_and_shrinks_to_fit() {
    let screen = Rect::new(0, 0, 100, 40);
    assert_eq!(centered(screen, 60, 10), Rect::new(20, 15, 60, 10));
    let small = Rect::new(0, 0, 30, 8);
    assert_eq!(centered(small, 60, 10), small);
    assert_eq!(box_height(5), 7);
    assert_eq!(box_height(70_000), u16::MAX);
}

#[test]
fn placing_the_panes_keeps_the_cursor_on_screen() {
    let mut app = loaded();
    app.focus = Pane::Detail;
    let (quotas, detail) = (Rect::new(0, 4, 80, 10), Rect::new(0, 14, 80, 13));
    app.place_panes(13, quotas, detail);
    assert_eq!((app.focus, app.detail_area), (Pane::Detail, detail));
    app.place_panes(0, quotas, detail);
    assert_eq!(
        (app.focus, app.detail_area),
        (Pane::List, Rect::new(0, 0, 0, 0))
    );
}

// ---------------------------------------------------------------------------
// The plain listing
// ---------------------------------------------------------------------------

fn text(line: &Line) -> String {
    line.spans.iter().map(|s| s.text.as_str()).collect()
}

#[test]
fn the_listing_says_everything_on_one_line_each() {
    let mut account = status("a", 1);
    assert_eq!(text(&list_account(&account, now())), "acme / a  — not polled yet");
    account.last_poll = Some(poll("acme:a"));
    assert_eq!(
        text(&list_account(&account, now())),
        "acme / a  — last poll ok (5s ago)"
    );
    assert_eq!(
        text(&list_poll(&poll("acme:a"))),
        "11:59:55  acme/acme:a  ok  12ms"
    );
    let failing = ProviderHealth {
        provider: "acme".to_owned(),
        accounts: vec![],
        consecutive_failures: 2,
        last_error: Some("expired".to_owned()),
    };
    let line = list_provider(&failing);
    assert_eq!(
        text(&line),
        "acme  accounts: 0  consecutive failures: 2  last error: expired"
    );
    assert_eq!(line.spans[0].style.fg, Some(theme::Color::Red));

    let mut app = loaded();
    assert!(text(&status_line(&app, now())).ends_with("| no updates yet"));
    app.last_update = Some(ago(90));
    assert!(text(&status_line(&app, now())).ends_with("| updated 1m 30s ago"));
    app.disconnected = true;
    assert_eq!(
        text(&status_line(&app, now())),
        " daemon unreachable — reconnecting…"
    );
    app.error = Some("broken".to_owned());
    assert_eq!(text(&status_line(&app, now())), " broken");
}

#[test]
fn a_listed_window_is_colored_by_its_use() {
    assert_eq!(ratio_color(amount(0.79)), theme::Color::Green);
    assert_eq!(ratio_color(amount(0.8)), theme::Color::Yellow);
    assert_eq!(ratio_color(amount(0.95)), theme::Color::Red);
    let printed = Printed {
        used: "10".to_owned(),
        limit: "100".to_owned(),
    };
    let line = list_window(&window("weekly"), amount(0.1), &printed, 2, now());
    assert!(text(&line).contains("██░░░░░░░░░░░░░░░░░░"), "{line:?}");
    assert!(text(&line).contains("10% used"), "{line:?}");
}

#[test]
fn a_history_is_captioned() {
    let printed = Printed {
        used: "3".to_owned(),
        limit: "100".to_owned(),
    };
    assert_eq!(history_caption(&vec![], &printed, ""), None);
    let readings = vec![reading("w", 60), reading("w", 30)];
    assert_eq!(
        history_caption(&readings, &printed, "9").as_deref(),
        Some(" 2 points, latest 3/100 max 9 ")
    );
    let mut open = reading("w", 0);
    open.limit = None;
    assert_eq!(usage_text_snapshot(&open, &printed), "3");
}

#[test]
fn the_listing_marks_the_row_under_the_cursor() {
    let mut app = App::new();
    let waiting = listing(&app, &vec![], &vec![], now());
    assert_eq!(waiting.len(), 1);
    assert!(!waiting[0].selected);
    assert_eq!(
        text(&waiting[0].line),
        "no accounts discovered yet — waiting for the daemon"
    );

    app.set_statuses(vec![status("a", 2), status("b", 0)]);
    app.handle_key(KeyEvent {
        code: KeyCode::Char('j'),
        control: false,
        kind: KeyEventKind::Press,
    });
    let figures = || Figures {
        quotient: amount(0.1),
        printed: Printed {
            used: "10".to_owned(),
            limit: "100".to_owned(),
        },
        eighths: 0,
        pace: Rated {
            rate: amount(1.0),
            text: String::new(),
            percent: String::new(),
        },
        recent: None,
        projected: None,
        afford: String::new(),
    };
    let listed = listing(
        &app,
        &vec![vec![figures(), figures()], vec![]],
        &vec![vec![2, 20], vec![]],
        now(),
    );
    let selected: Vec<bool> = listed.iter().map(|l| l.selected).collect();
    assert_eq!(selected, [false, false, true, false]);
    assert_eq!(text(&listed[0].line), "acme / a  — not polled yet");
    assert!(text(&listed[1].line).contains("██░░"), "{:?}", listed[1]);
    assert!(!text(&listed[2].line).contains('░'), "{:?}", listed[2]);
    assert_eq!(text(&listed[3].line), "acme / b  — not polled yet");
}
