//! The dashboard, drawn.

use ratatui::{Frame, Terminal};
use ratatui::backend::TestBackend;
use ratatui::layout::{Alignment, Rect as Area};
use ratatui::style::{Color as Ink, Modifier, Style as Look};
use ratatui::symbols::Marker;
use ratatui::text::{Line as Row, Span as Piece};
use ratatui::widgets::{Axis, Block, Borders, Chart as Plot, Clear, Dataset, GraphType, List, ListItem, ListState, Paragraph, Wrap};
use teiryo::adapter::{BarStyle, RenderHint};
use teiryo::amount::Amount;
use teiryo::app::input::{KeyCode, KeyEvent, KeyEventKind, Rect};
use teiryo::app::state::{App, Trend};
use teiryo::app::tabs::{DetailTab, Overlay, Pane};
use teiryo::domain::{Account, ClientKind, PollEvent, PollOutcome, PollTrigger, QuotaSnapshot, QuotaUnit, QuotaWindow, ResetKind, WindowScope};
use teiryo::ids::{AccountId, PollId, WindowId};
use teiryo::metrics::recent::FALL_EPSILON;
use teiryo::metrics::{Boundary, BoundaryKind, EffectiveWindow, Fraction, affordable_pace, effective_window, gap_tolerance, pace, recent_run, recent_stretch};
use teiryo::protocol::wire::{AccountHealth, AccountStatus, ConfigState, ConfigView, ProviderHealth, ProviderSettings, WindowView};
use teiryo::rollover::{ObservedStart, RolloverKind, WindowRollover};
use teiryo::time::{Duration, FIRST, LAST, Timestamp};
use teiryo::ui::theme;
use teiryo::ui::cells::cells;
use teiryo::ui::chart::{Chart, PEAK_HEADROOM, TrendView, future_lead, peak, rule_color, trend_view, x_labels, y_bound};
use teiryo::ui::detail::{activity_footer, activity_page, fit_scroll, health_footer, health_page, tab_bar, trend_footer};
use teiryo::ui::formats::Printed;
use teiryo::ui::gauges::{derived_line, gauge_columns, gauge_line, quota_rows, two_line};
use teiryo::ui::header::{Figures, Rated, connection_line, headroom_line, identity_line, notice_line};
use teiryo::ui::layout::{centered, detail_height, header_halves, key_bar, panes};
use teiryo::ui::overlay::{HELP_WIDTH, SETTINGS_WIDTH, box_height, confirm_page, help_page, settings_awaited, settings_page};
use teiryo::ui::spans::{Line, Page};

// ---------------------------------------------------------------------------
// The arithmetic and the drawing that the library leaves to its caller
// ---------------------------------------------------------------------------

fn value(amount: Amount) -> f64 {
    f64::from_bits(amount.bits)
}

fn amount(value: f64) -> Amount {
    Amount {
        bits: value.to_bits(),
    }
}

// Floating-point division, which the library cannot hold.
fn quotient(used: Amount, divisor: Option<Amount>) -> Amount {
    amount(divisor.map_or(0.0, |d| value(used) / value(d)))
}

/// Utilization of a window, within nothing and all of it.
fn utilization(window: &QuotaWindow) -> Option<f64> {
    window
        .utilization(quotient(window.used, window.divisor()))
        .map(value)
}

/// Utilization of a reading, within nothing and all of it.
fn reading(point: &QuotaSnapshot) -> Option<f64> {
    point
        .utilization(quotient(point.used, point.divisor()))
        .map(value)
}

// Floating-point division, which the library cannot hold.
fn ratio(fraction: Fraction) -> f64 {
    fraction.part as f64 / fraction.whole as f64
}

/// Whether the window's start is an instant there is.
fn placeable(window: &QuotaWindow) -> bool {
    match (window.reset_at, window.span()) {
        (Some(reset_at), Some(span)) => {
            let start = reset_at.nanos_since_epoch() - span;
            (FIRST..=LAST).contains(&start)
        }
        _ => true,
    }
}

// Floating-point arithmetic, which the library cannot hold.
fn projected(window: &EffectiveWindow, pace: f64) -> Option<i64> {
    let used = window.used.map_or(0.0, value);
    let per_second = pace / window.whole_span() as f64;
    let secs = ((1.0 - used) / per_second).round();
    (secs.is_finite() && secs >= 0.0 && secs <= i64::MAX as f64).then_some(secs as i64)
}

// Floating-point arithmetic, which the library cannot hold.
fn recent_pace(
    window: &EffectiveWindow,
    points: &[QuotaSnapshot],
    max_gap: i128,
    now: Timestamp,
) -> Option<f64> {
    let run = recent_run(window, points, now);
    let used: Vec<f64> = run
        .iter()
        .map(|p| reading(&points[p.index]).unwrap_or(0.0))
        .collect();
    let figures: Vec<Amount> = used.iter().map(|u| amount(*u)).collect();
    let floors: Vec<Amount> = used.iter().map(|u| amount(u - f64::from_bits(FALL_EPSILON))).collect();
    let stretch = recent_stretch(window, &run, &figures, &floors, max_gap, now)?;
    // The walk stopped at the last real fall, so the only way the stretch ends
    // below where it started is a slip inside the epsilon — a stretch that was
    // flat, which `0.00×` is the honest reading of.
    let burnt = (used[stretch.newest] - used[stretch.first]).max(0.0);
    Some(burnt / stretch.elapsed as f64 * stretch.span as f64)
}

fn rated(rate: f64) -> Rated {
    Rated {
        rate: amount(rate),
        text: format!("{rate:.2}"),
        percent: format!("{:.0}", rate * 100.0),
    }
}

/// How many eighths of a cell a bar of `width` cells fills at a ratio.
// Floating-point rounding, which the library cannot hold.
fn eighths(ratio: Option<f64>, width: usize) -> usize {
    (ratio.unwrap_or(0.0).clamp(0.0, 1.0) * (width * 8) as f64).round() as usize
}

/// The figures of one window's row, with a gauge `bar` cells wide.
fn figures_of(
    view: &WindowView,
    points: &[QuotaSnapshot],
    poll_interval_secs: u32,
    bar: usize,
    now: Timestamp,
) -> Figures {
    assert!(
        placeable(&view.window),
        "window start is outside the calendar"
    );
    let window = &view.window;
    let quotient = quotient(window.used, window.divisor());
    let effective = effective_window(view, quotient, now);
    let average = effective
        .as_ref()
        .and_then(|w| pace(w, now))
        .map(|r| value(r.used) / ratio(r.over));
    Figures {
        quotient,
        printed: Printed {
            used: format!("{:.0}", value(window.used)),
            limit: window
                .limit
                .map_or(String::new(), |l| format!("{:.0}", value(l))),
        },
        eighths: eighths(utilization(window), bar),
        pace: rated(average.unwrap_or(0.0)),
        recent: effective
            .as_ref()
            .and_then(|w| recent_pace(w, points, gap_tolerance(poll_interval_secs), now))
            .map(rated),
        projected: effective
            .as_ref()
            .zip(average)
            .and_then(|(w, pace)| projected(w, pace)),
        afford: effective
            .as_ref()
            .and_then(|w| affordable_pace(w, now))
            .map_or(String::new(), |r| {
                format!("{:.2}", (1.0 - value(r.used)) / ratio(r.over))
            }),
    }
}

/// The figures of every row of a list `width` cells wide.
fn all_figures(app: &App, width: usize, with_pace: bool, now: Timestamp) -> Vec<Vec<Figures>> {
    let bar = gauge_columns(width, with_pace).bar;
    app.statuses
        .iter()
        .map(|status: &AccountStatus| {
            status
                .windows
                .iter()
                .map(|view| {
                    figures_of(
                        view,
                        app.recent_points(&status.account.id, &view.window.id),
                        status.poll_interval_secs,
                        bar,
                        now,
                    )
                })
                .collect()
        })
        .collect()
}

/// How many eighths of a cell the header's bar of the worst window fills.
fn headroom_eighths(app: &App, width: usize) -> usize {
    let worst = app
        .statuses
        .iter()
        .flat_map(|s| s.windows.iter())
        .filter_map(|view| utilization(&view.window))
        .max_by(f64::total_cmp);
    eighths(worst, width)
}

/// The charted peak, with some headroom.
// Floating-point multiplication, which the library cannot hold.
fn scaled_peak(peak: Amount) -> Amount {
    amount(value(peak) * f64::from_bits(PEAK_HEADROOM))
}

/// Where the critical threshold lies on an axis that reaches `top`.
// Floating-point multiplication, which the library cannot hold.
fn threshold(part: Amount, top: f64) -> f64 {
    value(part) * top
}

/// Cells of the header's bar.
const HEADROOM_BAR: usize = 12;

/// Dots in a vertical rule of the chart.
const RULE_DOTS: usize = 24;

/// What the screen keeps from one frame to the next.
#[derive(Default)]
struct Screen {
    /// How far the quota list is scrolled.
    list: ListState,
}

fn ink(color: theme::Color) -> Ink {
    match color {
        theme::Color::Green => Ink::Green,
        theme::Color::Yellow => Ink::Yellow,
        theme::Color::Red => Ink::Red,
        theme::Color::Cyan => Ink::Cyan,
        theme::Color::DarkGray => Ink::DarkGray,
    }
}

fn look(style: theme::Style) -> Look {
    let mut out = Look::default();
    if let Some(color) = style.fg {
        out = out.fg(ink(color));
    }
    for (set, modifier) in [
        (style.bold, Modifier::BOLD),
        (style.underlined, Modifier::UNDERLINED),
        (style.reversed, Modifier::REVERSED),
    ] {
        if set {
            out = out.add_modifier(modifier);
        }
    }
    out
}

fn row(line: Line) -> Row<'static> {
    Row::from(
        line.spans
            .into_iter()
            .map(|span| Piece::styled(span.text, look(span.style)))
            .collect::<Vec<_>>(),
    )
}

fn rows(page: Page) -> Vec<Row<'static>> {
    page.lines.into_iter().map(row).collect()
}

fn area_of(rect: Rect) -> Area {
    Area::new(rect.x, rect.y, rect.width, rect.height)
}

fn rect_of(area: Area) -> Rect {
    Rect::new(area.x, area.y, area.width, area.height)
}

fn bordered(style: theme::Style) -> Block<'static> {
    Block::default()
        .borders(Borders::ALL)
        .border_style(look(style))
}

/// Draw one frame.
fn render(frame: &mut Frame<'_>, screen: &mut Screen, app: &mut App, now: Timestamp) {
    let area = rect_of(frame.area());
    let height = detail_height(app.detail_visible, area.height);
    let panes = panes(area, height);
    app.place_panes(height, panes.quotas, panes.detail);

    let inner = bordered(theme::plain()).inner(area_of(panes.quotas));
    let with_pace = !two_line(&app.rows(), inner.height as usize);
    let figures = all_figures(app, inner.width as usize, with_pace, now);
    render_header(frame, panes.header, app, &figures, now);
    render_quotas(frame, panes.quotas, screen, app, &figures, now);
    if height > 0 {
        render_detail(frame, area_of(panes.detail), app, &figures, now);
    }
    frame.render_widget(
        Paragraph::new(Row::from(Piece::styled(
            format!(" {}", key_bar(app)),
            look(theme::dim()),
        ))),
        area_of(panes.keys),
    );
    render_overlay(frame, area, app);
}

/// The two-line identity/connection header.
fn render_header(
    frame: &mut Frame<'_>,
    area: Rect,
    app: &App,
    figures: &Vec<Vec<Figures>>,
    now: Timestamp,
) {
    let block = bordered(theme::fg(theme::BORDER));
    let inner = block.inner(area_of(area));
    frame.render_widget(block, area_of(area));
    if inner.height == 0 {
        return;
    }
    let (left, right) = header_halves(rect_of(inner));
    frame.render_widget(
        Paragraph::new(vec![
            row(identity_line(&app.statuses)),
            row(connection_line(app, now)),
        ]),
        area_of(left),
    );
    let eighths = headroom_eighths(app, HEADROOM_BAR);
    frame.render_widget(
        Paragraph::new(vec![
            row(headroom_line(&app.statuses, figures, eighths)),
            row(notice_line(app)),
        ])
        .alignment(Alignment::Right),
        area_of(right),
    );
}

/// The account/window list with per-window gauges.
fn render_quotas(
    frame: &mut Frame<'_>,
    area: Rect,
    screen: &mut Screen,
    app: &App,
    figures: &Vec<Vec<Figures>>,
    now: Timestamp,
) {
    let block = bordered(theme::border(app.focus == Pane::List)).title(Piece::styled(
        " Quotas ",
        look(theme::heading()),
    ));
    let inner = block.inner(area_of(area));
    let items: Vec<ListItem<'_>> = quota_rows(
        app,
        figures,
        inner.width as usize,
        inner.height as usize,
        now,
    )
    .into_iter()
    .map(|page| ListItem::new(rows(page)))
    .collect();
    let list = List::new(items)
        .block(block)
        .highlight_style(look(theme::selected()));
    screen.list.select(app.list_selected);
    frame.render_stateful_widget(list, area_of(area), &mut screen.list);
}

/// The figures of the selected window.
fn selected_figures<'a>(app: &App, figures: &'a [Vec<Figures>]) -> Option<&'a Figures> {
    let row = app.selected_row()?;
    figures.get(row.account)?.get(row.window?)
}

/// The tabbed detail pane.
fn render_detail(
    frame: &mut Frame<'_>,
    area: Area,
    app: &mut App,
    figures: &[Vec<Figures>],
    now: Timestamp,
) {
    let selected = selected_figures(app, figures);
    let footer = match app.detail {
        DetailTab::Trend => {
            let until =
                now.nanos_since_epoch() - i128::from(app.trend_pan_secs) * 1_000_000_000;
            assert!(
                (FIRST..=LAST).contains(&until),
                "the chart is panned out of the calendar"
            );
            let charted = app
                .charted_trend()
                .map_or(f64::NEG_INFINITY, |t| value(peak(&t.snapshots)));
            trend_footer(app, selected, &format!("{charted:.0}"), now)
        }
        DetailTab::Activity => activity_footer(app.activity.len()),
        DetailTab::Health => health_footer(app.health.len()),
    };
    let block = bordered(theme::border(app.focus == Pane::Detail))
        .title(row(tab_bar(app.detail)))
        .title_bottom(row(footer));
    let viewport = rect_of(block.inner(area));
    let (page, nothing) = match app.detail {
        DetailTab::Trend => {
            // A chart is drawn to fit, on both axes; only text rows overflow.
            app.set_detail_bounds(0, 0);
            render_trend(frame, area, block, app, selected, now);
            return;
        }
        DetailTab::Activity => (
            activity_page(&app.activity, now),
            "no polls recorded yet",
        ),
        DetailTab::Health => (
            health_page(&app.health, now),
            "no provider health reported",
        ),
    };
    if page.lines.is_empty() {
        app.set_detail_bounds(0, 0);
        frame.render_widget(placeholder(nothing, block), area);
        return;
    }
    // A Paragraph rather than a List: the rows are wider than most terminals,
    // and only a Paragraph can be scrolled sideways to reach the rest of them.
    let scroll = fit_scroll(app, &page, viewport);
    frame.render_widget(
        Paragraph::new(rows(page)).block(block).scroll(scroll),
        area,
    );
}

fn placeholder(text: &str, block: Block<'static>) -> Paragraph<'static> {
    Paragraph::new(Row::from(Piece::styled(
        format!(" {text}"),
        look(theme::dim()),
    )))
    .block(block)
    .wrap(Wrap { trim: true })
}

fn render_trend(
    frame: &mut Frame<'_>,
    area: Area,
    block: Block<'static>,
    app: &App,
    selected: Option<&Figures>,
    now: Timestamp,
) {
    if let Some(trend) = app.charted_trend() {
        let left = trend.until.nanos_since_epoch()
            - i128::from(trend.range.duration()) * 1_000_000_000;
        assert!(
            (FIRST..=LAST).contains(&left),
            "the chart begins outside the calendar"
        );
    }
    let quotient = selected.map_or(amount(0.0), |f| f.quotient);
    match (trend_view(app, quotient, now), app.charted_trend()) {
        (TrendView::Drawn(chart), Some(trend)) => {
            let scaled = scaled_peak(peak(&trend.snapshots));
            let top = value(y_bound(&trend.snapshots, scaled));
            render_chart(frame, area, block, &chart, top);
        }
        (TrendView::Message(text), _) => frame.render_widget(placeholder(&text, block), area),
        (TrendView::Drawn(_), None) => {}
    }
}

/// A vertical rule at `x`, as points a scatter dataset can draw.
///
/// ratatui has no vline primitive. Braille dots spaced up the y axis read as a
/// dotted rule, which keeps it distinct from both the solid series and the
/// dotted horizontal threshold.
// Floating-point arithmetic, which the library cannot hold.
fn vrule(x: f64, top: f64) -> Vec<(f64, f64)> {
    (0..=RULE_DOTS)
        .map(|i| (x, top * i as f64 / RULE_DOTS as f64))
        .collect()
}

fn dots<'a>(marker: Marker, graph: GraphType, color: Ink, data: &'a [(f64, f64)]) -> Dataset<'a> {
    Dataset::default()
        .marker(marker)
        .graph_type(graph)
        .style(Look::default().fg(color))
        .data(data)
}

fn render_chart(frame: &mut Frame<'_>, area: Area, block: Block<'static>, chart: &Chart, top: f64) {
    let points = |points: &[teiryo::ui::chart::Point]| -> Vec<(f64, f64)> {
        points.iter().map(|p| (p.x as f64, value(p.y))).collect()
    };
    let series = points(&chart.series);
    let drops = points(&chart.drops);
    let right = (chart.span + chart.lead) as f64;
    let critical = threshold(chart.threshold, top);
    let limit = vec![(0.0, critical), (right, critical)];
    let rules: Vec<(Ink, Vec<(f64, f64)>)> = chart
        .rules
        .iter()
        .map(|rule| (ink(rule_color(rule.kind)), vrule(rule.x as f64, top)))
        .collect();

    // Rules first: later datasets draw over earlier ones, and the series is
    // what the pane is for.
    let accent = ink(theme::ACCENT);
    let mut datasets: Vec<Dataset<'_>> = rules
        .iter()
        .map(|(color, data)| dots(Marker::Braille, GraphType::Scatter, *color, data))
        .collect();
    datasets.push(dots(Marker::Braille, GraphType::Line, accent, &series));
    // The same points again, as a scatter in a coarser marker: everything
    // between two readings is interpolation the daemon never measured, and the
    // fat dots are what was actually probed.
    datasets.push(dots(Marker::Dot, GraphType::Scatter, accent, &series));
    datasets.push(dots(
        Marker::Dot,
        GraphType::Line,
        ink(theme::CRIT),
        &limit,
    ));
    if !drops.is_empty() {
        datasets.push(dots(
            Marker::Block,
            GraphType::Scatter,
            ink(theme::BOUNDARY_SURPRISE),
            &drops,
        ));
    }

    let dim = look(theme::dim());
    let label = |text: String| Row::from(Piece::styled(text, dim));
    let labels = &chart.labels;
    let plot = Plot::new(datasets)
        .block(
            block.title_top(
                Row::from(Piece::styled(
                    chart.title.clone(),
                    look(theme::heading()),
                ))
                .alignment(Alignment::Right),
            ),
        )
        .x_axis(Axis::default().style(dim).bounds([0.0, right]).labels(vec![
            label(labels.left.clone()),
            label(labels.middle.clone()),
            label(labels.right.clone()),
        ]))
        .y_axis(
            Axis::default()
                .style(dim)
                .bounds([0.0, top])
                .labels([0.0, top / 2.0, top].map(|v| label(format!("{v:.0}")))),
        )
        .legend_position(None);
    frame.render_widget(plot, area);
}

/// The overlay drawn over the dashboard, if there is one.
fn render_overlay(frame: &mut Frame<'_>, area: Rect, app: &App) {
    let Some(overlay) = app.overlay else {
        return;
    };
    let (page, width, height, title, style) = match overlay {
        Overlay::Help => {
            let page = help_page();
            let height = box_height(page.lines.len());
            (page, HELP_WIDTH, height, " Keys ", theme::ACCENT)
        }
        Overlay::Settings => match settings_page(app) {
            Some(page) => {
                let height = box_height(page.lines.len());
                (page, SETTINGS_WIDTH, height, " Settings ", theme::ACCENT)
            }
            None => (settings_awaited(), 60, 5, " Settings ", theme::ACCENT),
        },
        Overlay::ConfirmShutdown => (confirm_page(), 60, 7, " Stop daemon ", theme::CRIT),
    };
    let target = area_of(centered(area, width, height));
    let trim = overlay == Overlay::ConfirmShutdown;
    let block = bordered(theme::fg(style)).title(Piece::styled(
        title,
        look(theme::bold(theme::fg(style))),
    ));
    frame.render_widget(Clear, target);
    frame.render_widget(
        Paragraph::new(rows(page))
            .wrap(Wrap { trim })
            .block(block),
        target,
    );
}

// ---------------------------------------------------------------------------
// Fixtures
// ---------------------------------------------------------------------------

const MINUTE: i64 = 60;
const HOUR: i64 = 3600;

/// 2026-08-21 12:00:00 UTC.
fn now() -> Timestamp {
    Timestamp::from_nanos(1_787_313_600_000_000_000)
}

/// So many seconds from now.
fn at(secs: i64) -> Timestamp {
    Timestamp::from_nanos(now().nanos_since_epoch() + i128::from(secs) * 1_000_000_000)
}

/// When a frame is drawn: a moment after what it shows was loaded.
fn shown_at() -> Timestamp {
    Timestamp::from_nanos(now().nanos_since_epoch() + 1_000_000)
}

fn press(code: KeyCode) -> KeyEvent {
    KeyEvent {
        code,
        control: false,
        kind: KeyEventKind::Press,
    }
}

fn view(id: &str, used: f64, note: Option<&str>) -> WindowView {
    WindowView {
        window: QuotaWindow {
            id: WindowId::from(id),
            label: format!("Window {id} with a fairly long label"),
            scope: WindowScope::Model("opus".into()),
            reset_kind: ResetKind::Rolling(Duration {
                secs: 5 * 3600,
                nanos: 0,
            }),
            unit: QuotaUnit::Percent,
            used: amount(used),
            limit: Some(amount(100.0)),
            reset_at: Some(at(2 * HOUR)),
        },
        hint: RenderHint {
            style: BarStyle::Percent,
            warn_threshold: amount(0.8),
            critical_threshold: amount(0.95),
            note: note.map(str::to_owned),
        },
        observed_start: None,
    }
}

fn event(failed: bool) -> PollEvent {
    PollEvent {
        id: PollId::generate(),
        ts: at(-20),
        provider: "acme".into(),
        account: AccountId::from("acme:default"),
        trigger: PollTrigger::Manual {
            client: ClientKind::Tui,
        },
        outcome: if failed {
            PollOutcome::AuthError("token expired — run `acme` to refresh".into())
        } else {
            PollOutcome::Success { windows: vec![] }
        },
        latency_ms: 341,
    }
}

fn populated() -> App {
    let mut app = App::new();
    app.set_statuses(vec![AccountStatus {
        account: Account {
            id: AccountId::from("acme:default"),
            provider: "acme".into(),
            label: "default".into(),
        },
        windows: vec![
            view("session_5h", 62.0, Some("Blocks entirely at cap")),
            view("weekly", 97.0, Some("Blocks entirely at cap")),
            view("weekly_opus", 3.0, None),
        ],
        last_poll: Some(event(true)),
        last_success: Some(at(-9 * MINUTE)),
        poll_interval_secs: 60,
    }]);
    app.activity = vec![event(false), event(true)];
    app.health = vec![ProviderHealth {
        provider: "acme".into(),
        accounts: vec![AccountHealth {
            account: AccountId::from("acme:default"),
            consecutive_failures: 2,
            last_error: Some("token expired — run `acme` to refresh".into()),
            last_poll_ts: Some(now()),
            poll_interval_secs: 60,
        }],
        consecutive_failures: 2,
        last_error: Some("token expired".into()),
    }];
    app.last_update = Some(at(-4));
    app.config = Some(config_state(None));
    app
}

/// Settings as the daemon reports them, optionally with a rejected load.
fn config_state(error: Option<&str>) -> ConfigState {
    ConfigState {
        path: "/home/u/.config/teiryo/config.toml".into(),
        generation: 4,
        effective: ConfigView {
            poll_interval_secs: Some(120),
            default_poll_interval_secs: 60,
            min_poll_interval_secs: 10,
            providers: vec![
                ProviderSettings {
                    provider: "acme".into(),
                    enabled: true,
                    poll_interval_secs: Some(30),
                    effective_poll_interval_secs: 30,
                },
                ProviderSettings {
                    provider: "openai".into(),
                    enabled: false,
                    poll_interval_secs: None,
                    effective_poll_interval_secs: 120,
                },
            ],
        },
        loaded_at: now(),
        warnings: vec!["unknown key `providers.acme.retrys` — ignored".into()],
        error: error.map(str::to_owned),
    }
}

fn trend_for(app: &App, points: usize) -> Trend {
    let (status, view) = app.selected_window().expect("a window is selected");
    Trend {
        account: status.account.id.clone(),
        window: view.window.id.clone(),
        title: "default — Session".into(),
        range: app.range,
        until: app.trend_until(now()),
        // Enough history behind the series that a panned view is a view of
        // real data rather than one the app would clamp back.
        earliest: Some(at(-30 * 24 * HOUR)),
        fetched_at: now(),
        // One of each severity, so both rule colors and the unannounced
        // marker are exercised by every render below.
        rollovers: [
            (RolloverKind::Scheduled, 20 * 60),
            (RolloverKind::Early, 9 * 60),
            (RolloverKind::Unannounced, 60),
        ]
        .into_iter()
        .map(|(kind, minutes_ago)| WindowRollover {
            account: status.account.id.clone(),
            window: view.window.id.clone(),
            poll: PollId::generate(),
            observed_at: at(-minutes_ago * MINUTE),
            kind,
            prev_reset_at: Some(at(2 * HOUR)),
            new_reset_at: Some(at(3 * HOUR)),
            prev_used: amount(90.0),
            new_used: amount(2.0),
            prev_observed_at: None,
        })
        .collect(),
        snapshots: (0..points)
            .map(|i| QuotaSnapshot {
                poll_id: PollId::generate(),
                ts: at(-((points - i) as i64) * MINUTE),
                window: view.window.id.clone(),
                label: "Session".into(),
                unit: QuotaUnit::Percent,
                used: amount((i as f64) * 1.5),
                limit: Some(amount(100.0)),
                // A rollover partway through, so the marker dataset runs.
                reset_at: Some(
                    at((if i > points / 2 { 3 } else { 2 }) * HOUR),
                ),
            })
            .collect(),
    }
}

fn draw(app: &mut App, width: u16, height: u16) {
    let mut terminal = Terminal::new(TestBackend::new(width, height)).expect("terminal");
    terminal
        .draw(|frame| render(frame, &mut Screen::default(), app, shown_at()))
        .expect("render must not panic");
}

fn rendered(app: &mut App, width: u16, height: u16) -> String {
    let mut terminal = Terminal::new(TestBackend::new(width, height)).expect("terminal");
    terminal
        .draw(|frame| render(frame, &mut Screen::default(), app, shown_at()))
        .expect("render must not panic");
    let buffer = terminal.backend().buffer().clone();
    (0..buffer.area.height)
        .map(|y| {
            (0..buffer.area.width)
                .map(|x| buffer[(x, y)].symbol())
                .collect::<String>()
        })
        .collect::<Vec<_>>()
        .join("\n")
}

/// Columns of the detail pane holding at least [`RULE_RUN`] cells of
/// `color` — i.e. something spanning the plot rather than incidental.
///
/// Counting tall columns, rather than testing for the color's mere
/// presence, is what separates a rule from everything else painted in the
/// same palette: `BOUNDARY` is the border and axis color too, and the
/// warn-colored provider note sits in the footer. Both of those are at most
/// a few cells in any one column; a rule spans the whole plot.
fn rule_columns(app: &mut App, width: u16, height: u16, color: theme::Color) -> usize {
    // Border, x-axis and label rows contribute 3 to every column, so the
    // threshold has to clear that with room to spare.
    const RULE_RUN: usize = 6;
    let mut terminal = Terminal::new(TestBackend::new(width, height)).expect("terminal");
    terminal
        .draw(|frame| render(frame, &mut Screen::default(), app, shown_at()))
        .expect("render must not panic");
    let pane = app.detail_area;
    assert!(pane.height > 0, "the detail pane must be on screen");
    let buffer = terminal.backend().buffer().clone();
    (pane.x..pane.x + pane.width)
        .filter(|&x| {
            (pane.y..pane.y + pane.height)
                .filter(|&y| buffer[(x, y)].fg == ink(color) && buffer[(x, y)].symbol() != " ")
                .count()
                >= RULE_RUN
        })
        .count()
}

/// A trend pane wide enough that the four rules land in distinct columns.
const TREND_FRAME: (u16, u16) = (100, 40);

#[test]
fn the_trend_chart_rules_off_every_window_boundary() {
    let mut app = populated();
    app.detail = DetailTab::Trend;
    app.trend = Some(trend_for(&app, 90));

    // Exactly one early rollover in the fixture, and it gets a rule.
    //
    // Only the surprise color is asserted on: `BOUNDARY` is `DIM`, which is
    // also the y-axis and its labels, and `BOUNDARY_LIVE` is `ACCENT`,
    // which is the series itself — neither can be told from the chrome by
    // color alone. `detail::tests` covers those two directly instead.
    assert_eq!(
        rule_columns(
            &mut app,
            TREND_FRAME.0,
            TREND_FRAME.1,
            theme::BOUNDARY_SURPRISE
        ),
        1
    );

    let frame = rendered(&mut app, TREND_FRAME.0, TREND_FRAME.1);
    // The reset is ~2h out on a 24h chart, so the axis grows past the
    // present to hold its rule and the right label runs forwards.
    assert!(
        frame.contains("+1h"),
        "the axis reaches the upcoming reset:\n{frame}"
    );
    // And the count is stated in words, not left to the colors alone.
    assert!(frame.contains("3 reset(s)"), "{frame}");
    assert!(frame.contains("2 unexpected"), "{frame}");
}

/// The whole feature is conditional on the provider publishing a reset
/// instant. One that does not — and has never been seen to roll over —
/// must chart with none of it.
#[test]
fn a_window_with_no_cap_draws_no_rules_and_no_lead() {
    let mut app = populated();
    app.detail = DetailTab::Trend;
    for status in &mut app.statuses {
        for window in &mut status.windows {
            window.window.reset_at = None;
        }
    }
    let mut trend = trend_for(&app, 90);
    trend.rollovers.clear();
    for snapshot in &mut trend.snapshots {
        snapshot.reset_at = None;
    }
    app.trend = Some(trend);

    assert_eq!(
        rule_columns(
            &mut app,
            TREND_FRAME.0,
            TREND_FRAME.1,
            theme::BOUNDARY_SURPRISE
        ),
        0,
        "no rules without a published reset"
    );

    let frame = rendered(&mut app, TREND_FRAME.0, TREND_FRAME.1);
    assert!(
        frame.contains("now") && !frame.contains("+"),
        "the axis still ends at the present:\n{frame}"
    );
    assert!(!frame.contains("reset(s)"), "{frame}");
}

/// A panned chart is not showing the present, so the *current* window's
/// reset does not belong just off its right edge.
#[test]
fn a_panned_chart_does_not_reach_for_the_upcoming_reset() {
    let mut app = populated();
    app.detail = DetailTab::Trend;
    app.focus = Pane::Detail;
    app.trend = Some(trend_for(&app, 90));
    // Pan back; `trend_for` rebuilds the series against the new right edge.
    app.handle_key(press(KeyCode::Char('k')));
    assert!(!app.trend_is_live(), "precondition: the view moved");
    app.trend = Some(trend_for(&app, 90));

    let frame = rendered(&mut app, TREND_FRAME.0, TREND_FRAME.1);
    assert!(!frame.contains("+1h"), "{frame}");
}

/// An account whose windows have not arrived yet has nothing selectable,
/// so telling the user to "select a window" is advice they cannot follow.
#[test]
fn empty_trend_pane_distinguishes_no_data_from_no_selection() {
    let mut app = App::new();
    app.set_statuses(vec![AccountStatus {
        account: Account {
            id: AccountId::from("acme:default"),
            provider: "acme".into(),
            label: "default".into(),
        },
        windows: Vec::new(),
        last_poll: Some(event(true)),
        last_success: None,
        poll_interval_secs: 60,
    }]);
    assert!(rendered(&mut app, 100, 40).contains("no quota data yet"));

    // With windows present but the header row selected, the earlier
    // advice is the right one.
    let mut app = populated();
    app.handle_key(press(KeyCode::Home));
    assert!(rendered(&mut app, 100, 40).contains("select a window with j/k"));
}

/// Every tab, at sizes from absurdly small to very large. The row layout
/// does width arithmetic that would panic on underflow, and the chart
/// divides by a time span — both need real geometry to exercise.
#[test]
fn renders_at_every_size_and_tab() {
    const SIZES: [(u16, u16); 6] = [
        (20, 5),   // absurdly small
        (40, 10),  // too short for the detail pane
        (80, 24),  // classic terminal: pane must auto-collapse
        (80, 40),  // pane fits
        (120, 30), // wide
        (240, 80), // very large
    ];
    for (width, height) in SIZES {
        for tab in [DetailTab::Trend, DetailTab::Activity, DetailTab::Health] {
            let mut app = populated();
            app.detail = tab;
            app.trend = Some(trend_for(&app, 90));
            draw(&mut app, width, height);
        }
    }
}

/// Empty state: connected but the daemon has discovered nothing yet.
#[test]
fn every_row_carries_its_derived_numbers_when_the_pane_is_tall_enough() {
    let mut app = populated();
    let out = rendered(&mut app, 120, 40);

    // The gauge line does not carry pace; the continuation line does,
    // together with the runway and the pace still affordable.
    assert!(out.contains("pace"), "expected a pace field:\n{out}");
    assert!(out.contains("cap in"), "expected a runway field:\n{out}");
    assert!(
        out.contains("afford"),
        "expected an affordable pace:\n{out}"
    );
    assert!(out.contains("at reset"), "expected a projection:\n{out}");

    // The 97% window is 5 minutes from its cap and 2 hours from its reset,
    // so the cap is what binds; the 3% window's runway runs days past the
    // reset and is reported anyway.
    assert!(out.contains("cap in 5m"), "expected a near cap:\n{out}");
    assert!(
        out.contains("cap in 4d"),
        "expected a runway past the reset:\n{out}"
    );
}

/// Readings of `id` for the populated account, oldest first.
fn recent_series(id: &str, readings: &[(i64, f64)]) -> Vec<QuotaSnapshot> {
    readings
        .iter()
        .map(|&(minutes_ago, used)| QuotaSnapshot {
            poll_id: PollId::generate(),
            ts: at(-minutes_ago * MINUTE),
            window: WindowId::from(id),
            label: "Session".into(),
            unit: QuotaUnit::Percent,
            used: amount(used),
            limit: Some(amount(100.0)),
            reset_at: Some(at(2 * HOUR)),
        })
        .collect()
}

#[test]
fn a_row_reports_a_recent_burst_beside_the_average_that_hides_it() {
    let mut app = populated();
    // The 5-hour window is 3 hours in at 62%, an unremarkable 1.03×
    // average — but 20 of those points went in the last 20 minutes. Polled
    // every five minutes, two readings so far apart are still one stretch.
    app.statuses[0].poll_interval_secs = 300;
    app.set_recent(
        &AccountId::from("acme:default"),
        recent_series("session_5h", &[(20, 42.0), (0, 62.0)]),
    );
    let out = rendered(&mut app, 120, 40);

    assert!(out.contains("1.03× pace"), "expected the average:\n{out}");
    assert!(
        out.contains("3.00× now"),
        "expected the recent rate:\n{out}"
    );
    // Windows with no history behind them simply omit the field.
    assert_eq!(out.matches("× now").count(), 1, "only one series:\n{out}");
}

#[test]
fn a_short_pane_keeps_the_bars_and_drops_the_derived_line() {
    let mut app = populated();
    let out = rendered(&mut app, 120, 12);

    // Every window still has a gauge, and pace falls back to its column on
    // the gauge line rather than vanishing with the continuation line.
    assert!(out.contains("62%"), "expected the bars to survive:\n{out}");
    assert!(
        out.contains("pace"),
        "expected pace on the gauge line:\n{out}"
    );
    assert!(
        !out.contains("afford"),
        "the derived line should be gone:\n{out}"
    );
}

#[test]
fn a_narrow_pane_sheds_derived_fields_from_the_right() {
    let mut app = populated();
    let out = rendered(&mut app, 60, 40);

    // Pace is the last field to go, so it survives where the rest cannot.
    assert!(out.contains("pace"), "expected pace to survive:\n{out}");
    assert!(
        !out.contains("at reset"),
        "the projection should be gone:\n{out}"
    );
}

#[test]
fn the_help_overlay_says_what_the_row_numbers_mean() {
    let mut app = populated();
    app.overlay = Some(Overlay::Help);
    let out = rendered(&mut app, 100, 50);

    assert!(out.contains("What the numbers on a row mean"), "{out}");
    assert!(out.contains("burn rate since the window opened"), "{out}");
    // The legend sits below the keymap, so nothing may push it out through
    // the bottom border — the box sizes itself from the line count.
    assert!(out.contains("press any key to close"), "{out}");
}

#[test]
fn renders_before_any_data_arrives() {
    for tab in [DetailTab::Trend, DetailTab::Activity, DetailTab::Health] {
        let mut app = App::new();
        app.detail = tab;
        draw(&mut app, 80, 40);
    }
}

#[test]
fn renders_overlays_and_error_states() {
    for overlay in [Overlay::Help, Overlay::ConfirmShutdown, Overlay::Settings] {
        let mut app = populated();
        app.overlay = Some(overlay);
        // Overlays must also fit terminals smaller than they are.
        draw(&mut app, 30, 8);
        draw(&mut app, 100, 40);
    }
    let mut app = populated();
    app.disconnected = true;
    app.error = Some("daemon unreachable".into());
    draw(&mut app, 80, 40);
}

/// The visibility complaint this feature exists to fix: the overlay has to
/// say what each value is *and* where it came from, or "60s" is ambiguous
/// between a default and a deliberate choice.
#[test]
fn settings_overlay_shows_values_with_their_provenance() {
    let mut app = populated();
    app.overlay = Some(Overlay::Settings);
    let screen = rendered(&mut app, 100, 40);

    assert!(screen.contains("config.toml"), "{screen}");
    assert!(screen.contains("Poll interval"), "{screen}");
    assert!(screen.contains("2m"), "the global 120s value: {screen}");
    assert!(screen.contains("set here"), "{screen}");
    // A provider override versus one that inherits.
    assert!(screen.contains("acme · interval"), "{screen}");
    assert!(screen.contains("override"), "{screen}");
    assert!(screen.contains("inherited"), "{screen}");
    // Disabled providers read as off rather than simply being absent.
    assert!(screen.contains("openai · polling"), "{screen}");
    assert!(screen.contains("⚠"), "the unknown-key warning: {screen}");
}

/// A rejected config must be visible from the dashboard, not only inside
/// the overlay — otherwise the daemon looks like it is ignoring the file.
#[test]
fn a_rejected_config_shows_on_the_dashboard_and_in_the_overlay() {
    let mut app = populated();
    app.config = Some(config_state(Some(
        "`poll_interval_secs` must not be negative",
    )));
    assert!(rendered(&mut app, 100, 40).contains("config not applied"));

    app.overlay = Some(Overlay::Settings);
    let screen = rendered(&mut app, 100, 40);
    assert!(screen.contains("not applied"), "{screen}");
    assert!(screen.contains("still what is running"), "{screen}");
}

/// Opened before the first `GetConfig` reply lands, which is exactly what
/// happens if the daemon is slow to answer.
#[test]
fn settings_overlay_renders_without_a_config_yet() {
    let mut app = populated();
    app.config = None;
    app.overlay = Some(Overlay::Settings);
    draw(&mut app, 30, 8);
    assert!(rendered(&mut app, 100, 40).contains("waiting for the daemon"));
}

/// A one- or two-point series cannot be charted; it must fall back to a
/// message rather than dividing by a zero-width span.
#[test]
fn renders_degenerate_trend_series() {
    for points in [0, 1, 2] {
        let mut app = populated();
        app.trend = Some(trend_for(&app, points));
        draw(&mut app, 100, 40);
    }
}

/// Scroll routing needs geometry only the renderer knows: where each pane
/// landed, and how far the widest row overruns it.
#[test]
fn rendering_records_the_geometry_scrolling_depends_on() {
    let mut app = populated();
    app.detail = DetailTab::Activity;
    draw(&mut app, 60, 40);
    assert!(app.quotas_area.height > 0);
    assert!(app.detail_area.height > 0);
    assert!(
        app.detail_hscroll_max > 0,
        "an activity row is wider than 60 columns"
    );
    assert_eq!(
        app.detail_scroll_max, 0,
        "two poll events fit the pane, so there is nothing to scroll down to"
    );

    // …and both bounds move with the content: a log longer than the pane
    // is what makes a vertical scroll mean anything.
    app.activity = (0..40).map(|_| event(false)).collect();
    draw(&mut app, 60, 40);
    assert!(app.detail_scroll_max > 0);

    // A hidden pane cannot be pointed at, so it holds neither the cursor
    // nor a rectangle for the pointer to land in.
    app.detail_visible = false;
    app.focus = Pane::Detail;
    draw(&mut app, 60, 40);
    assert_eq!(app.detail_area, Rect::new(0, 0, 0, 0));
    assert_eq!(app.focus, Pane::List);
}

#[test]
fn scrolling_activity_sideways_reveals_the_columns_cut_off_the_right() {
    let mut app = populated();
    app.detail = DetailTab::Activity;
    let screen = rendered(&mut app, 60, 40);
    assert!(
        !screen.contains("341ms"),
        "latency is off-screen at 60: {screen}"
    );

    app.detail_hscroll = 40;
    let scrolled = rendered(&mut app, 60, 40);
    assert!(scrolled.contains("341ms"), "{scrolled}");
}

/// A chart panned into the past must not go on claiming it ends at "now".
#[test]
fn a_panned_trend_says_where_it_ends() {
    let mut app = populated();
    app.trend = Some(trend_for(&app, 90));
    assert!(rendered(&mut app, 100, 40).contains("now"));

    app.trend_pan_secs = 12 * HOUR;
    app.trend = Some(trend_for(&app, 90));
    let screen = rendered(&mut app, 100, 40);
    assert!(screen.contains("g for now"), "{screen}");
}

/// Panned all the way back, the footer has to say why the chart stopped
/// moving — otherwise a clipped scroll reads as an unresponsive key.
#[test]
fn a_trend_at_the_end_of_its_history_says_so() {
    let mut app = populated();
    let mut trend = trend_for(&app, 90);
    // A day of stored history against the default 24h range: the view is
    // already showing all of it and cannot go back further.
    trend.earliest = Some(at(-24 * HOUR));
    app.trend = Some(trend);
    let screen = rendered(&mut app, 100, 40);
    assert!(!screen.contains("start of history"), "{screen}");

    let mut trend = trend_for(&app, 90);
    trend.earliest = Some(at(-30 * HOUR));
    app.trend = Some(trend);
    app.trend_pan_secs = 6 * HOUR;
    let screen = rendered(&mut app, 100, 40);
    assert!(screen.contains("start of history"), "{screen}");
}

/// A window with no published limit has no ratio to draw.
#[test]
fn renders_windows_without_a_limit_or_reset() {
    let mut app = populated();
    for status in &mut app.statuses {
        for view in &mut status.windows {
            view.window.unit = QuotaUnit::Tokens;
            view.window.limit = None;
            view.window.reset_at = None;
        }
    }
    draw(&mut app, 100, 40);
}

// ---------------------------------------------------------------------------
// Rows
// ---------------------------------------------------------------------------

/// A weekly window, two hours from its reset.
fn weekly(label: &str) -> WindowView {
    let mut view = view("weekly_model", 62.0, None);
    view.window.label = label.to_owned();
    view.window.reset_kind = ResetKind::Rolling(Duration {
        secs: 7 * 24 * 3600,
        nanos: 0,
    });
    view
}

/// The same window, but with its start known only to a twelve-hour bracket —
/// wide enough for every field measured from the start to carry the `~` mark
/// and cost a cell more than the plain view's.
fn uncertain(label: &str) -> WindowView {
    WindowView {
        observed_start: Some(ObservedStart {
            not_before: at(-20 * HOUR),
            not_after: at(-8 * HOUR),
        }),
        ..weekly(label)
    }
}

/// The label column is exactly its budget whatever the label is made of.
#[test]
fn the_label_column_holds_its_width_for_any_label() {
    const LABEL: usize = 24;
    for label in [
        "Weekly",
        "Weekly — a fairly long model name that will not fit",
        // A server-supplied model name is the reason any of this matters,
        // and these are the three shapes a char count gets wrong.
        "Weekly — Opus 東京東京東京東京",
        "Weekly — \u{2764}\u{FE0F}\u{2764}\u{FE0F}\u{2764}\u{FE0F}\u{2764}\u{FE0F}",
        "Weekly — Ope\u{301}ra",
    ] {
        let view = weekly(label);
        let figures = figures_of(&view, &[], 60, 48, now());
        let line = gauge_line(&view, &figures, 120, now(), false);
        let drawn = cells(&line.spans[1].text);
        assert_eq!(
            drawn, LABEL,
            "label {label:?} drew {drawn} cells in a {LABEL}-cell column"
        );
    }
}

/// The derived line's own budget is in cells too, so a wide field costs
/// what it draws rather than what it counts.
#[test]
fn the_derived_line_budgets_in_cells() {
    for view in [weekly("Weekly"), uncertain("Weekly")] {
        for width in [120, 60, 44, 30] {
            let figures = figures_of(&view, &[], 60, 48, now());
            let line = derived_line(&view, &figures, width, now())
                .expect("a window with a reset instant has derived numbers");
            let drawn: usize = line.spans.iter().map(|s| cells(&s.text)).sum();
            assert!(drawn <= width, "drew {drawn} cells into {width}");
        }
    }
}

#[test]
fn a_bracketed_start_is_marked() {
    let view = uncertain("Weekly");
    let figures = figures_of(&view, &[], 60, 48, now());
    let line = derived_line(&view, &figures, 120, now()).unwrap();
    let text: String = line.spans.iter().map(|s| s.text.as_str()).collect();
    // Started 14 hours ago at the bracket's middle, two hours from the reset.
    assert_eq!(
        text,
        "    ▼ ~0.71× pace · cap in ~8h 34m · afford 3.04× · →~71% at reset"
    );
}

// ---------------------------------------------------------------------------
// The chart
// ---------------------------------------------------------------------------

const DAY: i64 = 24 * HOUR;

fn upcoming(hours: i64) -> Vec<Boundary> {
    vec![Boundary {
        at: at(hours * HOUR),
        kind: BoundaryKind::UpcomingReset,
    }]
}

#[test]
fn the_axis_grows_just_far_enough_to_hold_a_near_reset() {
    // 2h out of a 24h range is inside the 20% ceiling.
    let lead = future_lead(&upcoming(2), DAY, now(), true);
    assert_eq!(lead, 2 * 3600);
    assert!(lead <= DAY / 5);
}

#[test]
fn a_distant_reset_is_dropped_rather_than_squashing_the_history() {
    // A weekly window on a 24h chart: 3 days out is far past the ceiling.
    assert_eq!(future_lead(&upcoming(72), DAY, now(), true), 0);
    // And inside the ceiling it still fits.
    assert!(future_lead(&upcoming(4), DAY, now(), true) > 0);
}

#[test]
fn a_panned_chart_never_grows() {
    assert_eq!(future_lead(&upcoming(2), DAY, now(), false), 0);
}

#[test]
fn without_an_upcoming_reset_there_is_nothing_to_make_room_for() {
    let past = vec![Boundary {
        at: at(-3 * HOUR),
        kind: BoundaryKind::CurrentStart,
    }];
    assert_eq!(future_lead(&past, DAY, now(), true), 0);
    assert_eq!(future_lead(&[], DAY, now(), true), 0);
}

#[test]
fn the_factors_are_the_numbers_they_stand_for() {
    assert_eq!(f64::from_bits(PEAK_HEADROOM), 1.05);
    assert_eq!(f64::from_bits(FALL_EPSILON), 0.005);
}

#[test]
fn each_boundary_reads_at_its_own_volume() {
    // Scheduled rollovers recede; the live window matches its series;
    // anything unadvertised is flagged.
    assert_eq!(rule_color(BoundaryKind::Rollover), theme::BOUNDARY);
    assert_eq!(rule_color(BoundaryKind::Surprise), theme::BOUNDARY_SURPRISE);
    assert_eq!(rule_color(BoundaryKind::CurrentStart), theme::BOUNDARY_LIVE);
    assert_eq!(
        rule_color(BoundaryKind::UpcomingReset),
        theme::BOUNDARY_LIVE
    );
    assert_ne!(rule_color(BoundaryKind::Rollover), theme::BOUNDARY_SURPRISE);
}

#[test]
fn axis_labels_run_backwards_to_the_left_and_forwards_past_the_present() {
    let left = at(-24 * HOUR);
    // Extended by 2h to reach an upcoming reset.
    let labels = x_labels(left, DAY + 2 * 3600, now());
    assert!(labels.left.starts_with('-'), "{labels:?}");
    assert!(labels.right.starts_with('+'), "{labels:?}");

    // Unextended, the right edge is the present itself.
    let plain = x_labels(left, DAY, now());
    assert_eq!(plain.right, "now");
}
