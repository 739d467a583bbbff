//! The tabbed detail pane: Trend, Activity, Health.
//!
//! The pane holds no data of its own — it shows whatever the app last loaded,
//! and the event loop reloads that on every daemon update, so the pane stays
//! live rather than freezing at the moment it was opened.

use vstd::prelude::*;

use crate::app::input::Rect;
use crate::app::state::{App, Trend};
use crate::app::tabs::{DetailTab, TimeRange};
use crate::domain::PollEvent;
use crate::metrics;
use crate::metrics::window;
use crate::protocol::wire::{AccountHealth, ProviderHealth, WindowView};
use crate::rollover::RolloverKind;
use crate::text;
use crate::time;
use crate::time::Timestamp;
use crate::ui::cells;
use crate::ui::cells::truncate;
use crate::ui::chart;
use crate::ui::formats;
use crate::ui::gauges;
use crate::ui::header;
use crate::ui::header::Figures;
use crate::ui::spans;
use crate::ui::spans::{Line, Page, SpanData};
use crate::ui::theme;

verus! {

// ---------------------------------------------------------------------------
// Scrolling
// ---------------------------------------------------------------------------

/// Columns the first `n` spans of a line take up.
pub open spec fn line_width(line: Seq<SpanData>, n: nat) -> nat
    decreases n,
{
    if n == 0 {
        0
    } else {
        line_width(line, (n - 1) as nat) + cells::display_width(line[n - 1].text)
    }
}

/// Columns the widest of the first `n` lines takes up.
pub open spec fn widest(page: Seq<Seq<SpanData>>, n: nat) -> nat
    decreases n,
{
    if n == 0 {
        0
    } else {
        let rest = widest(page, (n - 1) as nat);
        let width = line_width(page[n - 1], page[n - 1].len());
        if width > rest {
            width
        } else {
            rest
        }
    }
}

fn width_of_line(line: &Line) -> (r: u128)
    ensures
        r == line_width(line@, line@.len()),
{
    let mut total: u128 = 0;
    let mut i: usize = 0;
    while i < line.spans.len()
        invariant
            i <= line.spans.len(),
            total == line_width(line@, i as nat),
            total <= i * 0xffff_ffff_ffff_ffff,
        decreases line.spans.len() - i,
    {
        assert(line@[i as int].text == line.spans@[i as int].text@);
        total = total + cells::width_of(line.spans[i].text.as_str()) as u128;
        i += 1;
    }
    total
}

fn width_of_page(page: &Page) -> (r: u128)
    ensures
        r == widest(page@, page@.len()),
{
    let mut most: u128 = 0;
    let mut i: usize = 0;
    while i < page.lines.len()
        invariant
            i <= page.lines.len(),
            most == widest(page@, i as nat),
        decreases page.lines.len() - i,
    {
        assert(page@[i as int] == page.lines@[i as int]@);
        let width: u128 = width_of_line(&page.lines[i]);
        if width > most {
            most = width;
        }
        i += 1;
    }
    most
}

/// What `whole` is over `part`, or the largest size there is.
pub open spec fn overrun(whole: nat, part: nat) -> usize {
    if whole <= part {
        0
    } else if whole - part <= usize::MAX {
        (whole - part) as usize
    } else {
        usize::MAX
    }
}

/// Clamp the pane's offsets to what `page` actually overflows the viewport by,
/// and hand back the rows and columns to draw at. The renderer is the only
/// place that knows both the content and the viewport, so it is where the
/// bounds for the next scroll are established.
pub fn fit_scroll(app: &mut App, page: &Page, viewport: Rect) -> (r: (u16, u16))
    ensures
        ({
            let columns = overrun(widest(page@, page@.len()), viewport.width as nat);
            let rows = overrun(page@.len(), viewport.height as nat);
            &&& *final(app) == (App {
                detail_hscroll_max: columns,
                detail_scroll_max: rows,
                detail_hscroll: if old(app).detail_hscroll < columns {
                    old(app).detail_hscroll
                } else {
                    columns
                },
                detail_scroll: if old(app).detail_scroll < rows {
                    old(app).detail_scroll
                } else {
                    rows
                },
                ..*old(app)
            })
            &&& r.0 == if final(app).detail_scroll <= u16::MAX {
                final(app).detail_scroll as int
            } else {
                u16::MAX as int
            }
            &&& r.1 == if final(app).detail_hscroll <= u16::MAX {
                final(app).detail_hscroll as int
            } else {
                u16::MAX as int
            }
        }),
        old(app).wf() ==> final(app).wf(),
{
    let wide: u128 = width_of_page(page);
    let columns: usize = if wide <= viewport.width as u128 {
        0
    } else if wide - viewport.width as u128 <= usize::MAX as u128 {
        (wide - viewport.width as u128) as usize
    } else {
        usize::MAX
    };
    let tall: usize = page.lines.len();
    let rows: usize = if tall <= viewport.height as usize {
        0
    } else {
        tall - viewport.height as usize
    };
    app.set_detail_bounds(columns, rows);
    let y: u16 = if app.detail_scroll <= u16::MAX as usize {
        app.detail_scroll as u16
    } else {
        u16::MAX
    };
    let x: u16 = if app.detail_hscroll <= u16::MAX as usize {
        app.detail_hscroll as u16
    } else {
        u16::MAX
    };
    (y, x)
}

// ---------------------------------------------------------------------------
// Title and footer
// ---------------------------------------------------------------------------

/// A tab's name.
pub open spec fn tab_name(tab: DetailTab) -> Seq<char> {
    match tab {
        DetailTab::Trend => "Trend"@,
        DetailTab::Activity => "Activity"@,
        DetailTab::Health => "Health"@,
    }
}

/// A tab in the strip.
pub open spec fn tab_span(tab: DetailTab, number: Seq<char>, active: DetailTab) -> SpanData {
    spans::span(
        number + " "@ + tab_name(tab),
        if tab == active {
            theme::underlined(theme::bold(theme::fg(theme::ACCENT)))
        } else {
            theme::dim()
        },
    )
}

/// The tab strip.
pub open spec fn tabs(active: DetailTab) -> Seq<SpanData> {
    seq![
        spans::span(" "@, theme::plain()),
        tab_span(DetailTab::Trend, "1"@, active),
        spans::span("  "@, theme::plain()),
        tab_span(DetailTab::Activity, "2"@, active),
        spans::span("  "@, theme::plain()),
        tab_span(DetailTab::Health, "3"@, active),
        spans::span("  "@, theme::plain()),
    ]
}

fn push_tab(line: &mut Line, tab: DetailTab, number: &str, active: DetailTab)
    ensures
        final(line)@ == old(line)@.push(tab_span(tab, number@, active)).push(
            spans::span("  "@, theme::plain()),
        ),
{
    let style = if tab == active {
        theme::underlined(theme::bold(theme::fg(theme::ACCENT)))
    } else {
        theme::dim()
    };
    line.push(number.to_owned().concat(" ").concat(tab.label()), style);
    line.say("  ", theme::plain());
}

/// The tab strip, rendered as the pane's title so it costs no extra row.
pub fn tab_bar(active: DetailTab) -> (r: Line)
    ensures
        r@ == tabs(active),
{
    let mut line = Line::new();
    line.say(" ", theme::plain());
    push_tab(&mut line, DetailTab::Trend, "1", active);
    push_tab(&mut line, DetailTab::Activity, "2", active);
    push_tab(&mut line, DetailTab::Health, "3", active);
    line
}

/// A range's name.
pub open spec fn range_name(range: TimeRange) -> Seq<char> {
    match range {
        TimeRange::H1 => "1h"@,
        TimeRange::H6 => "6h"@,
        TimeRange::H24 => "24h"@,
        TimeRange::D7 => "7d"@,
    }
}

/// A range in the selector.
pub open spec fn range_span(range: TimeRange, active: TimeRange) -> SpanData {
    spans::span(
        range_name(range),
        if range == active {
            theme::bold(theme::fg(theme::ACCENT))
        } else {
            theme::dim()
        },
    )
}

/// The range selector.
pub open spec fn ranges(active: TimeRange) -> Seq<SpanData> {
    let gap = spans::span(" "@, theme::plain());
    seq![
        gap,
        range_span(TimeRange::H1, active),
        gap,
        range_span(TimeRange::H6, active),
        gap,
        range_span(TimeRange::H24, active),
        gap,
        range_span(TimeRange::D7, active),
        gap,
    ]
}

fn push_range(line: &mut Line, range: TimeRange, active: TimeRange)
    ensures
        final(line)@ == old(line)@.push(range_span(range, active)).push(
            spans::span(" "@, theme::plain()),
        ),
{
    let style = if range == active {
        theme::bold(theme::fg(theme::ACCENT))
    } else {
        theme::dim()
    };
    line.say(range.label(), style);
    line.say(" ", theme::plain());
}

/// How many of the first `n` rollovers are the charted window's.
pub open spec fn resets(trend: Trend, n: nat) -> nat
    decreases n,
{
    if n == 0 {
        0
    } else {
        resets(trend, (n - 1) as nat) + if trend.rollovers@[n - 1].window@ == trend.window@ {
            1nat
        } else {
            0
        }
    }
}

/// How many of the first `n` rollovers are the charted window's, and not ones
/// the provider advertised.
pub open spec fn surprises(trend: Trend, n: nat) -> nat
    decreases n,
{
    if n == 0 {
        0
    } else {
        let r = trend.rollovers@[n - 1];
        surprises(trend, (n - 1) as nat) + if r.window@ == trend.window@ && r.kind
            != RolloverKind::Scheduled {
            1nat
        } else {
            0
        }
    }
}

/// The charted window's rollovers: how many there are, and how many of them
/// the provider did not advertise.
///
/// A history request without a window is answered for every window on the
/// account. The pane only ever asks about one, but counting like this keeps
/// the markers and the footer agreeing with the rules of the chart.
pub fn count_resets(trend: &Trend) -> (r: (usize, usize))
    ensures
        r.0 == resets(*trend, trend.rollovers@.len()),
        r.1 == surprises(*trend, trend.rollovers@.len()),
{
    let mut all: usize = 0;
    let mut odd: usize = 0;
    let mut i: usize = 0;
    while i < trend.rollovers.len()
        invariant
            i <= trend.rollovers.len(),
            all <= i,
            odd <= i,
            all == resets(*trend, i as nat),
            odd == surprises(*trend, i as nat),
        decreases trend.rollovers.len() - i,
    {
        let r = &trend.rollovers[i];
        if r.window.same(&trend.window) {
            all = all + 1;
            if r.kind.is_surprise() {
                odd = odd + 1;
            }
        }
        i += 1;
    }
    (all, odd)
}

/// The footer's words on the series.
pub open spec fn series_words(trend: Trend, peak: Seq<char>) -> Seq<SpanData> {
    let count = trend.snapshots@.len();
    let points = if chart::peak_of(trend.snapshots@).finite() {
        seq![
            spans::span(
                "· "@ + text::decimal(count) + " pts · peak "@ + peak,
                theme::dim(),
            ),
        ]
    } else {
        seq![]
    };
    let all = resets(trend, trend.rollovers@.len());
    let odd = surprises(trend, trend.rollovers@.len());
    let counted = if all > 0 {
        points.push(spans::span(" · "@ + text::decimal(all) + " reset(s)"@, theme::dim()))
    } else {
        points
    };
    if all > 0 && odd > 0 {
        counted.push(
            spans::span(
                " · "@ + text::decimal(odd) + " unexpected"@,
                theme::fg(theme::BOUNDARY_SURPRISE),
            ),
        )
    } else {
        counted
    }
}

fn push_series(line: &mut Line, trend: &Trend, peak: &str)
    ensures
        final(line)@ == old(line)@ + series_words(*trend, peak@),
{
    let ghost start = line@;
    let count: usize = trend.snapshots.len();
    if chart::peak(&trend.snapshots).is_finite() {
        line.push(
            "· ".to_owned().concat(text::decimal_of(count as u64).as_str()).concat(
                " pts · peak ",
            ).concat(peak),
            theme::dim(),
        );
    }
    // The rules are easy to miss on a busy chart, and a surprise reset is
    // worth stating in words rather than leaving to a color.
    let (all, odd) = count_resets(trend);
    if all > 0 {
        line.push(
            " · ".to_owned().concat(text::decimal_of(all as u64).as_str()).concat(" reset(s)"),
            theme::dim(),
        );
        if odd > 0 {
            line.push(
                " · ".to_owned().concat(text::decimal_of(odd as u64).as_str()).concat(
                    " unexpected",
                ),
                theme::fg(theme::BOUNDARY_SURPRISE),
            );
        }
    }
    assert(line@ =~= start + series_words(*trend, peak@));
}

/// The footer's words on the selected window.
pub open spec fn window_words(view: WindowView, figures: Figures, now: Timestamp) -> Seq<SpanData> {
    let used = seq![
        spans::span(
            " · now "@ + formats::usage_words(view.window, figures.printed),
            theme::dim(),
        ),
    ];
    let paced = match window::effective_of(view, figures.quotient, now) {
        Some(w) => if window::pace_of(w, now) is Some {
            used.push(spans::span(" · pace "@ + figures.pace.text@ + "×"@, theme::dim()))
        } else {
            used
        },
        None => used,
    };
    let lately = match figures.recent {
        Some(recent) => paced.push(
            spans::span(" · lately "@ + recent.text@ + "×"@, theme::dim()),
        ),
        None => paced,
    };
    match view.hint.note {
        Some(note) => lately.push(
            spans::span(" · "@ + cells::truncated(note@, 32), theme::fg(theme::WARN)),
        ),
        None => lately,
    }
}

fn push_window(line: &mut Line, view: &WindowView, figures: &Figures, now: Timestamp)
    requires
        gauges::placeable(*view),
    ensures
        final(line)@ == old(line)@ + window_words(*view, *figures, now),
{
    let ghost start = line@;
    line.push(
        " · now ".to_owned().concat(
            formats::usage_text(&view.window, &figures.printed).as_str(),
        ),
        theme::dim(),
    );
    if let Some(w) = metrics::effective_window(view, figures.quotient, now) {
        if metrics::pace(&w, now).is_some() {
            line.push(
                " · pace ".to_owned().concat(figures.pace.text.as_str()).concat("×"),
                theme::dim(),
            );
        }
    }
    // Named for what separates it from the pace beside it: that one is the
    // average since the window opened, this one only the recent end of it.
    if let Some(recent) = &figures.recent {
        line.push(
            " · lately ".to_owned().concat(recent.text.as_str()).concat("×"),
            theme::dim(),
        );
    }
    if let Some(note) = &view.hint.note {
        line.push(
            " · ".to_owned().concat(truncate(note.as_str(), 32).as_str()),
            theme::fg(theme::WARN),
        );
    }
    assert(line@ =~= start + window_words(*view, *figures, now));
}

/// The trend tab's footer. `peak` is the charted peak, printed whole, and
/// `figures` are the selected window's.
pub open spec fn trend_foot(
    app: App,
    figures: Option<Figures>,
    peak: Seq<char>,
    now: Timestamp,
) -> Seq<SpanData> {
    let until = now.at() - app.trend_pan_secs * time::NANOS_PER_SEC;
    let panned = if until < now.at() {
        ranges(app.range).push(
            spans::span(
                "· ends "@ + formats::elapsed(until, now.at()) + " · g for now "@,
                theme::fg(theme::WARN),
            ),
        )
    } else {
        ranges(app.range)
    };
    let clipped = if app.at_oldest() {
        panned.push(spans::span("· start of history "@, theme::dim()))
    } else {
        panned
    };
    let counted = match app.charted() {
        Some(trend) => clipped + series_words(trend, peak),
        None => clipped,
    };
    let said = match (app.window(), figures) {
        (Some((_, view)), Some(figures)) => counted + window_words(view, figures, now),
        _ => counted,
    };
    said.push(spans::span(" "@, theme::plain()))
}

/// The trend tab's footer.
pub fn trend_footer(app: &App, figures: Option<&Figures>, peak: &str, now: Timestamp) -> (r: Line)
    requires
        time::representable(now.at() - app.trend_pan_secs * time::NANOS_PER_SEC),
        app.window() matches Some((_, view)) ==> gauges::placeable(view),
    ensures
        r@ == trend_foot(
            *app,
            match figures {
                Some(f) => Some(*f),
                None => None,
            },
            peak@,
            now,
        ),
{
    let mut line = Line::new();
    line.say(" ", theme::plain());
    push_range(&mut line, TimeRange::H1, app.range);
    push_range(&mut line, TimeRange::H6, app.range);
    push_range(&mut line, TimeRange::H24, app.range);
    push_range(&mut line, TimeRange::D7, app.range);
    assert(line@ =~= ranges(app.range));
    // A panned chart is no longer showing the present, which the series alone
    // cannot say — the line simply stops earlier than usual.
    let until = app.trend_until(now);
    if until.before(now) {
        line.push(
            "· ends ".to_owned().concat(formats::format_elapsed(until, now).as_str()).concat(
                " · g for now ",
            ),
            theme::fg(theme::WARN),
        );
    }
    // Scrolling back stops at the first stored point rather than running on
    // into empty time; without this the chart would just refuse to move, which
    // reads as a stuck key.
    if app.trend_at_oldest() {
        line.say("· start of history ", theme::dim());
    }
    // The same series the chart draws, so the counts cannot describe a window
    // the pane is no longer showing.
    if let Some(trend) = app.charted_trend() {
        push_series(&mut line, trend, peak);
    }
    if let Some((_, view)) = app.selected_window() {
        if let Some(figures) = figures {
            push_window(&mut line, view, figures, now);
        }
    }
    line.say(" ", theme::plain());
    line
}

/// The activity tab's footer.
pub fn activity_footer(polls: usize) -> (r: Line)
    ensures
        r@ == seq![
            spans::span(
                " "@ + text::decimal(polls as nat) + " polls · PgUp/PgDn rows · j/k across "@,
                theme::dim(),
            ),
        ],
{
    Line::of(
        " ".to_owned().concat(text::decimal_of(polls as u64).as_str()).concat(
            " polls · PgUp/PgDn rows · j/k across ",
        ),
        theme::dim(),
    )
}

/// The health tab's footer.
pub fn health_footer(providers: usize) -> (r: Line)
    ensures
        r@ == seq![
            spans::span(
                " "@ + text::decimal(providers as nat) + " provider(s) "@,
                theme::dim(),
            ),
        ],
{
    Line::of(
        " ".to_owned().concat(text::decimal_of(providers as u64).as_str()).concat(
            " provider(s) ",
        ),
        theme::dim(),
    )
}

// ---------------------------------------------------------------------------
// Activity
// ---------------------------------------------------------------------------

/// One line of the poll log.
pub open spec fn activity_row(event: PollEvent, now: int) -> Seq<SpanData> {
    seq![
        spans::span(" "@ + formats::glyph_of(event.trigger) + " "@, theme::dim()),
        spans::span(formats::time_of_day(event.ts.at()), theme::dim()),
        spans::span(
            "  "@ + text::padded_right(cells::truncated(event.account@, 21), 22),
            theme::plain(),
        ),
        spans::span(
            text::padded_right(
                cells::truncated(formats::outcome_words(event.outcome), 39),
                40,
            ),
            theme::fg(
                if event.outcome is Success {
                    theme::OK
                } else {
                    theme::CRIT
                },
            ),
        ),
        spans::span(
            text::padded_left(text::decimal(event.latency_ms as nat), 7) + "ms"@,
            theme::dim(),
        ),
        spans::span("  "@ + formats::elapsed(event.ts.at(), now), theme::dim()),
    ]
}

/// One line of the poll log.
pub fn activity_line(event: &PollEvent, now: Timestamp) -> (r: Line)
    ensures
        r@ == activity_row(*event, now.at()),
{
    let (words, failed) = formats::outcome_text(event);
    let mut line = Line::new();
    line.push(
        " ".to_owned().concat(formats::trigger_glyph(&event.trigger)).concat(" "),
        theme::dim(),
    );
    line.push(formats::format_time_of_day(event.ts), theme::dim());
    let account = truncate(event.account.as_str(), 21);
    line.push(
        "  ".to_owned().concat(text::pad_right(account.as_str(), 22).as_str()),
        theme::plain(),
    );
    let color = if failed {
        theme::CRIT
    } else {
        theme::OK
    };
    line.push(
        text::pad_right(truncate(words.as_str(), 39).as_str(), 40),
        theme::fg(color),
    );
    let latency = text::decimal_of(event.latency_ms as u64);
    line.push(text::pad_left(latency.as_str(), 7).concat("ms"), theme::dim());
    line.push(
        "  ".to_owned().concat(formats::format_elapsed(event.ts, now).as_str()),
        theme::dim(),
    );
    line
}

/// The poll log, newest first.
pub open spec fn activity(events: Seq<PollEvent>, now: int) -> Seq<Seq<SpanData>> {
    Seq::new(events.len(), |i: int| activity_row(events[i], now))
}

/// The poll log, in the order it was loaded.
pub fn activity_page(events: &Vec<PollEvent>, now: Timestamp) -> (r: Page)
    ensures
        r@ == activity(events@, now.at()),
{
    let mut page = Page::new();
    let mut i: usize = 0;
    while i < events.len()
        invariant
            i <= events.len(),
            page@ == activity(events@, now.at()).take(i as int),
        decreases events.len() - i,
    {
        page.push(activity_line(&events[i], now));
        i += 1;
        assert(page@ =~= activity(events@, now.at()).take(i as int));
    }
    assert(activity(events@, now.at()).take(i as int) =~= activity(events@, now.at()));
    page
}

// ---------------------------------------------------------------------------
// Health
// ---------------------------------------------------------------------------

/// A provider's line.
pub open spec fn provider_row(provider: ProviderHealth) -> Seq<SpanData> {
    let healthy = provider.consecutive_failures == 0;
    let color = if healthy {
        theme::OK
    } else {
        theme::CRIT
    };
    seq![
        spans::span(
            if healthy {
                " ● "@
            } else {
                " ▲ "@
            },
            theme::fg(color),
        ),
        spans::span(provider.provider@, theme::bold(theme::plain())),
        spans::span(
            "  "@ + text::decimal(provider.accounts@.len()) + " account"@ + header::plural(
                provider.accounts@.len(),
            ),
            theme::dim(),
        ),
    ]
}

/// A provider's line.
pub fn provider_line(provider: &ProviderHealth) -> (r: Line)
    ensures
        r@ == provider_row(*provider),
{
    let healthy = provider.consecutive_failures == 0;
    let mut line = Line::new();
    if healthy {
        line.say(" ● ", theme::fg(theme::OK));
    } else {
        line.say(" ▲ ", theme::fg(theme::CRIT));
    }
    line.push(provider.provider.clone(), theme::bold(theme::plain()));
    let accounts: usize = provider.accounts.len();
    let plural = if accounts == 1 {
        ""
    } else {
        "s"
    };
    line.push(
        "  ".to_owned().concat(text::decimal_of(accounts as u64).as_str()).concat(
            " account",
        ).concat(plural),
        theme::dim(),
    );
    line
}

/// An account's line.
pub open spec fn account_row(account: AccountHealth, now: int) -> Seq<SpanData> {
    let healthy = account.consecutive_failures == 0;
    let named = seq![
        spans::span("     "@, theme::plain()),
        spans::span(
            if healthy {
                "ok  "@
            } else {
                "fail"@
            },
            theme::fg(
                if healthy {
                    theme::OK
                } else {
                    theme::CRIT
                },
            ),
        ),
        spans::span(
            "  "@ + text::padded_right(cells::truncated(account.account@, 23), 24),
            theme::plain(),
        ),
    ];
    let counted = if healthy {
        named
    } else {
        named.push(
            spans::span(
                text::decimal(account.consecutive_failures as nat) + " consecutive  "@,
                theme::fg(theme::CRIT),
            ),
        )
    };
    let paced = if account.poll_interval_secs > 0 {
        counted.push(
            spans::span(
                "every "@ + text::decimal(account.poll_interval_secs as nat) + "s"@,
                theme::dim(),
            ),
        )
    } else {
        counted
    };
    match account.last_poll_ts {
        Some(ts) => paced.push(
            spans::span("  last "@ + formats::elapsed(ts.at(), now), theme::dim()),
        ),
        None => paced,
    }
}

/// An account's lines: errors get their own line rather than being truncated
/// off the right edge of the row above.
pub open spec fn account_rows(account: AccountHealth, now: int) -> Seq<Seq<SpanData>> {
    match account.last_error {
        Some(error) => seq![
            account_row(account, now),
            seq![spans::span("       "@ + error@, theme::fg(theme::CRIT))],
        ],
        None => seq![account_row(account, now)],
    }
}

fn push_account(page: &mut Page, account: &AccountHealth, now: Timestamp)
    ensures
        final(page)@ == old(page)@ + account_rows(*account, now.at()),
{
    let ghost start = page@;
    let healthy = account.consecutive_failures == 0;
    let mut line = Line::new();
    line.say("     ", theme::plain());
    if healthy {
        line.say("ok  ", theme::fg(theme::OK));
    } else {
        line.say("fail", theme::fg(theme::CRIT));
    }
    let name = truncate(account.account.as_str(), 23);
    line.push(
        "  ".to_owned().concat(text::pad_right(name.as_str(), 24).as_str()),
        theme::plain(),
    );
    if !healthy {
        line.push(
            text::decimal_of(account.consecutive_failures as u64).concat(" consecutive  "),
            theme::fg(theme::CRIT),
        );
    }
    if account.poll_interval_secs > 0 {
        line.push(
            "every ".to_owned().concat(
                text::decimal_of(account.poll_interval_secs as u64).as_str(),
            ).concat("s"),
            theme::dim(),
        );
    }
    if let Some(ts) = account.last_poll_ts {
        line.push(
            "  last ".to_owned().concat(formats::format_elapsed(ts, now).as_str()),
            theme::dim(),
        );
    }
    assert(line@ =~= account_row(*account, now.at()));
    page.push(line);
    if let Some(error) = &account.last_error {
        page.push(
            Line::of("       ".to_owned().concat(error.as_str()), theme::fg(theme::CRIT)),
        );
    }
    assert(page@ =~= start + account_rows(*account, now.at()));
}

/// The lines of a provider's first `n` accounts.
pub open spec fn accounts_health(accounts: Seq<AccountHealth>, n: nat, now: int) -> Seq<
    Seq<SpanData>,
>
    decreases n,
{
    if n == 0 {
        Seq::empty()
    } else {
        accounts_health(accounts, (n - 1) as nat, now) + account_rows(accounts[n - 1], now)
    }
}

/// The lines of the first `n` providers, each with its accounts below it.
pub open spec fn health(providers: Seq<ProviderHealth>, n: nat, now: int) -> Seq<Seq<SpanData>>
    decreases n,
{
    if n == 0 {
        Seq::empty()
    } else {
        let provider = providers[n - 1];
        health(providers, (n - 1) as nat, now).push(provider_row(provider)) + accounts_health(
            provider.accounts@,
            provider.accounts@.len(),
            now,
        )
    }
}

/// Provider health: each provider, and its accounts below it.
pub fn health_page(providers: &Vec<ProviderHealth>, now: Timestamp) -> (r: Page)
    ensures
        r@ == health(providers@, providers@.len(), now.at()),
{
    let mut page = Page::new();
    let mut i: usize = 0;
    while i < providers.len()
        invariant
            i <= providers.len(),
            page@ == health(providers@, i as nat, now.at()),
        decreases providers.len() - i,
    {
        let provider = &providers[i];
        page.push(provider_line(provider));
        let ghost start = page@;
        let accounts = &provider.accounts;
        let mut k: usize = 0;
        assert(start + accounts_health(accounts@, 0, now.at()) =~= start);
        while k < accounts.len()
            invariant
                k <= accounts.len(),
                page@ == start + accounts_health(accounts@, k as nat, now.at()),
            decreases accounts.len() - k,
        {
            push_account(&mut page, &accounts[k], now);
            k += 1;
            assert(page@ =~= start + accounts_health(accounts@, k as nat, now.at()));
        }
        i += 1;
    }
    page
}

/// A line is as wide as its spans together, and a page as its widest line.
pub proof fn a_page_is_as_wide_as_its_widest_line(page: Seq<Seq<SpanData>>, n: nat, i: int, k: nat)
    requires
        0 <= i < n <= page.len(),
        k < page[i].len(),
    ensures
        line_width(page[i], 0) == 0,
        line_width(page[i], k + 1) == line_width(page[i], k) + cells::display_width(
            page[i][k as int].text,
        ),
        line_width(page[i], page[i].len()) <= widest(page, n),
        widest(page, n) == 0 || exists|j: int|
            0 <= j < n && widest(page, n) == #[trigger] line_width(page[j], page[j].len()),
    decreases n,
{
    if n > 1 {
        if i < n - 1 {
            a_page_is_as_wide_as_its_widest_line(page, (n - 1) as nat, i, k);
        } else {
            widest_is_some_line(page, (n - 1) as nat);
        }
        let rest = widest(page, (n - 1) as nat);
        if widest(page, n) == rest && rest != 0 {
            let j = choose|j: int|
                0 <= j < n - 1 && rest == #[trigger] line_width(page[j], page[j].len());
            assert(widest(page, n) == line_width(page[j], page[j].len()));
        } else if rest != widest(page, n) {
            assert(widest(page, n) == line_width(page[n - 1], page[n - 1].len()));
        }
    } else {
        assert(widest(page, 0) == 0);
        if widest(page, 1) != 0 {
            assert(widest(page, 1) == line_width(page[0], page[0].len()));
        }
    }
}

proof fn widest_is_some_line(page: Seq<Seq<SpanData>>, n: nat)
    requires
        n <= page.len(),
    ensures
        widest(page, n) == 0 || exists|j: int|
            0 <= j < n && widest(page, n) == #[trigger] line_width(page[j], page[j].len()),
    decreases n,
{
    if n > 0 {
        widest_is_some_line(page, (n - 1) as nat);
        let rest = widest(page, (n - 1) as nat);
        if widest(page, n) == rest && rest != 0 {
            let j = choose|j: int|
                0 <= j < n - 1 && rest == #[trigger] line_width(page[j], page[j].len());
            assert(widest(page, n) == line_width(page[j], page[j].len()));
        } else if rest != widest(page, n) {
            assert(widest(page, n) == line_width(page[n - 1], page[n - 1].len()));
        }
    }
}

/// What does not fit is what there is beyond what fits.
pub proof fn what_does_not_fit_is_the_rest(whole: nat, part: nat)
    requires
        whole <= usize::MAX,
    ensures
        whole <= part ==> overrun(whole, part) == 0,
        whole >= part ==> overrun(whole, part) + part == whole,
{
}

/// The tabs are numbered in their order, and only the open one stands out.
pub proof fn the_open_tab_stands_out(active: DetailTab)
    ensures
        ({
            let said = tabs(active);
            &&& said.len() == 7
            &&& said[1].text == "1"@ + " "@ + "Trend"@
            &&& said[3].text == "2"@ + " "@ + "Activity"@
            &&& said[5].text == "3"@ + " "@ + "Health"@
            &&& said[1].style.underlined <==> active is Trend
            &&& said[3].style.underlined <==> active is Activity
            &&& said[5].style.underlined <==> active is Health
            &&& said[1].style == theme::dim() <==> active !is Trend
            &&& said[3].style == theme::dim() <==> active !is Activity
            &&& said[5].style == theme::dim() <==> active !is Health
        }),
{
}

/// The ranges are named in their order, and only the one on display stands out.
pub proof fn the_range_on_display_stands_out(active: TimeRange)
    ensures
        ({
            let said = ranges(active);
            &&& said.len() == 9
            &&& said[1].text == "1h"@ && (said[1].style.bold <==> active is H1)
            &&& said[3].text == "6h"@ && (said[3].style.bold <==> active is H6)
            &&& said[5].text == "24h"@ && (said[5].style.bold <==> active is H24)
            &&& said[7].text == "7d"@ && (said[7].style.bold <==> active is D7)
        }),
{
}

/// Resets are counted of the charted window alone, and as unexpected unless they
/// came on schedule.
pub proof fn resets_are_counted_of_the_charted_window(trend: Trend, n: nat)
    requires
        n < trend.rollovers@.len(),
    ensures
        resets(trend, 0) == 0 && surprises(trend, 0) == 0,
        ({
            let r = trend.rollovers@[n as int];
            let own = r.window@ == trend.window@;
            &&& resets(trend, n + 1) == resets(trend, n) + if own {
                1int
            } else {
                0
            }
            &&& surprises(trend, n + 1) == surprises(trend, n) + if own && r.kind !is Scheduled {
                1int
            } else {
                0
            }
        }),
{
}

/// A series is told by its points and its peak, if it has one, and by its resets
/// and the unexpected among them, if there are any.
pub proof fn a_series_is_told_by_its_points_and_resets(trend: Trend, peak: Seq<char>)
    ensures
        ({
            let said = series_words(trend, peak);
            let peaked = chart::peak_of(trend.snapshots@).finite();
            let all = resets(trend, trend.rollovers@.len());
            let odd = surprises(trend, trend.rollovers@.len());
            let at = if peaked {
                1int
            } else {
                0
            };
            &&& peaked ==> said[0].text == "· "@ + text::decimal(trend.snapshots@.len())
                + " pts · peak "@ + peak
            &&& all == 0 ==> said.len() == at
            &&& all > 0 ==> said[at].text == " · "@ + text::decimal(all) + " reset(s)"@
            &&& all > 0 && odd == 0 ==> said.len() == at + 1
            &&& all > 0 && odd > 0 ==> said.len() == at + 2 && said[at + 1].text == " · "@
                + text::decimal(odd) + " unexpected"@ && said[at + 1].style.fg == Some(
                theme::Color::Yellow,
            )
        }),
{
}

/// A window is told by its use, its pace while it has one, its recent rate if it
/// has one, and its caveat if it has one.
pub proof fn a_window_is_told_by_its_figures(view: WindowView, figures: Figures, now: Timestamp)
    ensures
        ({
            let said = window_words(view, figures, now);
            let w = window::effective_of(view, figures.quotient, now);
            let paced = w is Some && window::pace_of(w->0, now) is Some;
            let p = if paced {
                2int
            } else {
                1
            };
            let q = if figures.recent is Some {
                p + 1
            } else {
                p
            };
            &&& said[0].text == " · now "@ + formats::usage_words(view.window, figures.printed)
            &&& paced ==> said[1].text == " · pace "@ + figures.pace.text@ + "×"@
            &&& figures.recent matches Some(recent) ==> said[p].text == " · lately "@ + recent.text@
                + "×"@
            &&& view.hint.note is None ==> said.len() == q
            &&& view.hint.note matches Some(note) ==> said.len() == q + 1 && said[q].text == " · "@
                + cells::truncated(note@, 32)
        }),
{
}

/// The foot of the chart names the ranges; says when a panned chart ends, and
/// when it is panned as far as it goes; and then tells the series and the window.
pub proof fn the_foot_says_what_is_on_display(
    app: App,
    figures: Option<Figures>,
    peak: Seq<char>,
    now: Timestamp,
)
    ensures
        ({
            let said = trend_foot(app, figures, peak, now);
            let until = now.at() - app.trend_pan_secs * 1_000_000_000;
            let p = if app.trend_pan_secs > 0 {
                10int
            } else {
                9
            };
            let q = if app.at_oldest() {
                p + 1
            } else {
                p
            };
            let series = if app.charted() is Some {
                series_words(app.charted()->0, peak)
            } else {
                Seq::empty()
            };
            let view = if app.window() is Some && figures is Some {
                window_words((app.window()->0).1, figures->0, now)
            } else {
                Seq::empty()
            };
            &&& said.take(9) == ranges(app.range)
            &&& app.trend_pan_secs > 0 ==> said[9].text == "· ends "@ + formats::elapsed(
                until,
                now.at(),
            ) + " · g for now "@
            &&& app.at_oldest() ==> said[p].text == "· start of history "@
            &&& said.len() == q + series.len() + view.len() + 1
            &&& said.subrange(q, q + series.len()) == series
            &&& said.subrange(q + series.len(), q + series.len() + view.len()) == view
        }),
{
    let said = trend_foot(app, figures, peak, now);
    let p = if app.trend_pan_secs > 0 {
        10int
    } else {
        9
    };
    let q = if app.at_oldest() {
        p + 1
    } else {
        p
    };
    let series = if app.charted() is Some {
        series_words(app.charted()->0, peak)
    } else {
        Seq::empty()
    };
    let view = if app.window() is Some && figures is Some {
        window_words((app.window()->0).1, figures->0, now)
    } else {
        Seq::empty()
    };
    assert(ranges(app.range).len() == 9);
    assert(said.len() == q + series.len() + view.len() + 1);
    assert(said.take(9) =~= ranges(app.range));
    assert(said.subrange(q, q + series.len()) =~= series);
    assert(said.subrange(q + series.len(), q + series.len() + view.len()) =~= view);
}

/// A poll is told by what started it, when it was, whose it was, what came of it
/// and how long it took; each poll on a row of its own, in order.
pub proof fn a_poll_is_told_on_a_row(events: Seq<PollEvent>, now: int, i: int)
    requires
        0 <= i < events.len(),
    ensures
        activity(events, now).len() == events.len(),
        ({
            let (said, event) = (activity(events, now)[i], events[i]);
            &&& said.len() == 6
            &&& said[0].text == " "@ + formats::glyph_of(event.trigger) + " "@
            &&& said[1].text == formats::time_of_day(event.ts.at())
            &&& said[2].text == "  "@ + text::padded_right(cells::truncated(event.account@, 21), 22)
            &&& said[3].text == text::padded_right(
                cells::truncated(formats::outcome_words(event.outcome), 39),
                40,
            )
            &&& event.outcome is Success ==> said[3].style.fg == Some(theme::Color::Green)
            &&& event.outcome !is Success ==> said[3].style.fg == Some(theme::Color::Red)
            &&& said[4].text == text::padded_left(text::decimal(event.latency_ms as nat), 7)
                + "ms"@
            &&& said[5].text == "  "@ + formats::elapsed(event.ts.at(), now)
        }),
{
}

/// A provider is well while it has not just failed; so is an account, and one
/// that is not says how often in a row.
pub proof fn health_is_told_by_the_last_failures(
    provider: ProviderHealth,
    account: AccountHealth,
    now: int,
)
    ensures
        ({
            let said = provider_row(provider);
            let n = provider.accounts@.len();
            &&& said.len() == 3
            &&& provider.consecutive_failures == 0 ==> said[0].text == " ● "@ && said[0].style.fg
                == Some(theme::Color::Green)
            &&& provider.consecutive_failures > 0 ==> said[0].text == " ▲ "@ && said[0].style.fg
                == Some(theme::Color::Red)
            &&& said[1].text == provider.provider@
            &&& said[2].text == "  "@ + text::decimal(n) + " account"@ + header::plural(n)
        }),
        ({
            let said = account_row(account, now);
            let well = account.consecutive_failures == 0;
            let p = if well {
                3int
            } else {
                4
            };
            let q = if account.poll_interval_secs > 0 {
                p + 1
            } else {
                p
            };
            &&& well ==> said[1].text == "ok  "@ && said[1].style.fg == Some(theme::Color::Green)
            &&& !well ==> said[1].text == "fail"@ && said[1].style.fg == Some(theme::Color::Red)
                && said[3].text == text::decimal(account.consecutive_failures as nat)
                + " consecutive  "@
            &&& said[2].text == "  "@ + text::padded_right(
                cells::truncated(account.account@, 23),
                24,
            )
            &&& account.poll_interval_secs > 0 ==> said[p].text == "every "@ + text::decimal(
                account.poll_interval_secs as nat,
            ) + "s"@
            &&& account.last_poll_ts is None ==> said.len() == q
            &&& account.last_poll_ts matches Some(ts) ==> said.len() == q + 1 && said[q].text
                == "  last "@ + formats::elapsed(ts.at(), now)
        }),
        account.last_error is None ==> account_rows(account, now) == seq![
            account_row(account, now),
        ],
        account.last_error matches Some(e) ==> {
            let said = account_rows(account, now);
            said.len() == 2 && said[0] == account_row(account, now) && said[1].len() == 1
                && said[1][0].text == "       "@ + e@
        },
{
}

/// Every provider is told, followed by every account of it, in order.
pub proof fn every_account_is_told_under_its_provider(
    providers: Seq<ProviderHealth>,
    accounts: Seq<AccountHealth>,
    n: nat,
    now: int,
)
    ensures
        health(providers, 0, now).len() == 0,
        accounts_health(accounts, 0, now).len() == 0,
        n < providers.len() ==> health(providers, n + 1, now) == health(providers, n, now) + seq![
            provider_row(providers[n as int]),
        ] + accounts_health(
            providers[n as int].accounts@,
            providers[n as int].accounts@.len(),
            now,
        ),
        n < accounts.len() ==> accounts_health(accounts, n + 1, now) == accounts_health(
            accounts,
            n,
            now,
        ) + account_rows(accounts[n as int], now),
{
    if n < providers.len() {
        let row = provider_row(providers[n as int]);
        assert(health(providers, n, now).push(row) =~= health(providers, n, now) + seq![row]);
    }
}

} // verus!
